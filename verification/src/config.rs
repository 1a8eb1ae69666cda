//! Client configuration: base URLs for the two transports, the shared
//! secret, timeouts, the upload chunk size, and the transport preference.

use vstd::prelude::*;

verus! {

/// Configuration of the SDK core, built up with the `with_*` methods.
pub struct SDKConfig {
    /// Base URL of the REST transport, held without a trailing `/`.
    pub rest_base_url: String,
    /// Base URL of the socket transport, held with a trailing `/`.
    pub sock_base_url: String,
    /// Shared secret exchanged for the authentication flag.
    pub password: String,
    /// Connection timeout in seconds.
    pub timeout: usize,
    /// Upload chunk size in bytes.
    pub chunk_size: usize,
    /// Prefer the REST transport over the socket for eligible commands.
    pub use_rest: bool,
    /// Use TLS for both transports.
    pub secure: bool,
}

impl SDKConfig {
    /// The default configuration: empty base URLs, a placeholder password,
    /// a ten second timeout, fifty kibibyte chunks, REST preferred, TLS on.
    pub fn default() -> (r: SDKConfig)
        ensures
            r.rest_base_url@ == Seq::<char>::empty(),
            r.sock_base_url@ == Seq::<char>::empty(),
            r.password@ == "toor"@,
            r.timeout == 10,
            r.chunk_size == 51200,
            r.use_rest,
            r.secure,
    {
        proof {
            reveal_strlit("");
        }
        SDKConfig {
            rest_base_url: String::new(),
            sock_base_url: String::new(),
            password: String::from_str("toor"),
            timeout: 10,
            chunk_size: 51200,
            use_rest: true,
            secure: true,
        }
    }

    /// Set the REST base URL, dropping one trailing `/` if present.
    pub fn with_rest_url(self, url: &str) -> (r: SDKConfig)
        ensures
            r.rest_base_url@ == (if url@.len() > 0 && url@.last() == '/' {
                url@.drop_last()
            } else {
                url@
            }),
            r.sock_base_url == self.sock_base_url,
            r.password == self.password,
            r.timeout == self.timeout,
            r.chunk_size == self.chunk_size,
            r.use_rest == self.use_rest,
            r.secure == self.secure,
    {
        let len = url.unicode_len();
        let trimmed = if len > 0 && url.get_char(len - 1) == '/' {
            proof {
                assert(url@.subrange(0, len - 1) =~= url@.drop_last());
            }
            String::from_str(url.substring_char(0, len - 1))
        } else {
            String::from_str(url)
        };
        SDKConfig { rest_base_url: trimmed, ..self }
    }

    /// Set the shared secret.
    pub fn with_password(self, pass: &str) -> (r: SDKConfig)
        ensures
            r.password@ == pass@,
            r.rest_base_url == self.rest_base_url,
            r.sock_base_url == self.sock_base_url,
            r.timeout == self.timeout,
            r.chunk_size == self.chunk_size,
            r.use_rest == self.use_rest,
            r.secure == self.secure,
    {
        SDKConfig { password: String::from_str(pass), ..self }
    }

    /// Set the socket base URL, adding a trailing `/` if absent.
    pub fn with_sock_url(self, url: &str) -> (r: SDKConfig)
        ensures
            r.sock_base_url@ == (if url@.len() > 0 && url@.last() == '/' {
                url@
            } else {
                url@ + "/"@
            }),
            r.rest_base_url == self.rest_base_url,
            r.password == self.password,
            r.timeout == self.timeout,
            r.chunk_size == self.chunk_size,
            r.use_rest == self.use_rest,
            r.secure == self.secure,
    {
        let len = url.unicode_len();
        let full = if len > 0 && url.get_char(len - 1) == '/' {
            String::from_str(url)
        } else {
            let mut s = String::from_str(url);
            s.append("/");
            s
        };
        SDKConfig { sock_base_url: full, ..self }
    }

    /// Set the upload chunk size in bytes.
    pub fn with_chunk_size(self, size: usize) -> (r: SDKConfig)
        ensures
            r.chunk_size == size,
            r.rest_base_url == self.rest_base_url,
            r.sock_base_url == self.sock_base_url,
            r.password == self.password,
            r.timeout == self.timeout,
            r.use_rest == self.use_rest,
            r.secure == self.secure,
    {
        SDKConfig { chunk_size: size, ..self }
    }

    /// Set the connection timeout in seconds.
    pub fn with_timeout(self, time: usize) -> (r: SDKConfig)
        ensures
            r.timeout == time,
            r.rest_base_url == self.rest_base_url,
            r.sock_base_url == self.sock_base_url,
            r.password == self.password,
            r.chunk_size == self.chunk_size,
            r.use_rest == self.use_rest,
            r.secure == self.secure,
    {
        SDKConfig { timeout: time, ..self }
    }

    /// Set whether the REST transport is preferred.
    pub fn with_rest(self, rest: bool) -> (r: SDKConfig)
        ensures
            r.use_rest == rest,
            r.rest_base_url == self.rest_base_url,
            r.sock_base_url == self.sock_base_url,
            r.password == self.password,
            r.timeout == self.timeout,
            r.chunk_size == self.chunk_size,
            r.secure == self.secure,
    {
        SDKConfig { use_rest: rest, ..self }
    }

    /// Set whether TLS is used.
    pub fn with_secure(self, sec: bool) -> (r: SDKConfig)
        ensures
            r.secure == sec,
            r.rest_base_url == self.rest_base_url,
            r.sock_base_url == self.sock_base_url,
            r.password == self.password,
            r.timeout == self.timeout,
            r.chunk_size == self.chunk_size,
            r.use_rest == self.use_rest,
    {
        SDKConfig { secure: sec, ..self }
    }

    /// The shared secret.
    pub fn password(&self) -> (r: &str)
        ensures
            r@ == self.password@,
    {
        self.password.as_str()
    }

    /// `{rest_base_url}/{url}`.
    pub fn push_to_rest_url(&self, url: &str) -> (r: String)
        ensures
            r@ == self.rest_base_url@ + "/"@ + url@,
    {
        let mut s = self.rest_base_url.clone();
        s.append("/");
        s.append(url);
        s
    }

    /// `{sock_base_url}/{url}`.
    pub fn push_to_sock_url(&self, url: &str) -> (r: String)
        ensures
            r@ == self.sock_base_url@ + "/"@ + url@,
    {
        let mut s = self.sock_base_url.clone();
        s.append("/");
        s.append(url);
        s
    }
}

} // verus!
