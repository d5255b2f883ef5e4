//! The settings of the proxy.
//!
//! They are made once, before the server listens, and handed to the handlers
//! by reference.

use crate::bytes::{equal, SLASH};
use crate::sandbox::is_absolute;
use crate::uri::{parse_uri, uri_parsed, uri_parts, UriParts};
use vstd::prelude::*;
use vstd::string::{is_ascii, is_ascii_spec_bytes, StringSliceAdditionalSpecFns};
use vstd::utf8::encode_utf8;

verus! {

/// The settings of the proxy.
#[derive(Clone, Debug, PartialEq, Eq)]
pub struct Config {
    /// The sandbox root: the resolved, absolute directory below which every
    /// file that is served lies.
    pub base_path: Vec<u8>,
    /// The upstream base: `http://` and the authority of the upstream.
    pub proxy_to: Vec<u8>,
    /// The log filter.
    pub log_level: String,
    /// The host to listen on.
    pub host: String,
    /// The port to listen on.
    pub port: u16,
}

/// The settings as a mathematical value.
pub struct ConfigView {
    pub base_path: Seq<u8>,
    pub proxy_to: Seq<u8>,
    pub log_level: Seq<char>,
    pub host: Seq<char>,
    pub port: u16,
}

impl View for Config {
    type V = ConfigView;

    open spec fn view(&self) -> ConfigView {
        ConfigView {
            base_path: self.base_path@,
            proxy_to: self.proxy_to@,
            log_level: self.log_level@,
            host: self.host@,
            port: self.port,
        }
    }
}

/// Why settings are refused.
#[derive(Clone, Debug, PartialEq, Eq)]
pub enum ConfigError {
    /// The sandbox root is not an absolute path.
    RelativeBasePath,
    /// The upstream URL is no URI, or one without an authority.
    InvalidUrl,
    /// The upstream URL names no scheme.
    MissingScheme,
    /// The upstream URL names a scheme other than `http`. `suggestion` is the
    /// same URL with the scheme `http`.
    UnsupportedScheme { suggestion: Vec<u8> },
}

/// An error as a mathematical value.
pub enum ConfigErrorView {
    RelativeBasePath,
    InvalidUrl,
    MissingScheme,
    UnsupportedScheme { suggestion: Seq<u8> },
}

impl View for ConfigError {
    type V = ConfigErrorView;

    open spec fn view(&self) -> ConfigErrorView {
        match self {
            ConfigError::RelativeBasePath => ConfigErrorView::RelativeBasePath,
            ConfigError::InvalidUrl => ConfigErrorView::InvalidUrl,
            ConfigError::MissingScheme => ConfigErrorView::MissingScheme,
            ConfigError::UnsupportedScheme { suggestion } => ConfigErrorView::UnsupportedScheme {
                suggestion: suggestion@,
            },
        }
    }
}

/// The text `http://`.
pub open spec fn http_prefix() -> Seq<u8> {
    seq!['h' as u8, 't' as u8, 't' as u8, 'p' as u8, ':' as u8, '/' as u8, '/' as u8]
}

/// The scheme `http`.
pub open spec fn http_scheme() -> Seq<u8> {
    seq!['h' as u8, 't' as u8, 't' as u8, 'p' as u8]
}

/// `http://` and the authority of a URI; nothing after `http://` for a URI without one.
pub open spec fn http_base(parts: UriParts) -> Seq<u8> {
    http_prefix() + match parts.authority {
        Some(authority) => encode_utf8(authority),
        None => Seq::<u8>::empty(),
    }
}

/// The upstream base for a URL with the components `parts`: `http://` and its
/// authority where its scheme is `http` and it has an authority.
pub open spec fn upstream_base_of(parts: UriParts) -> Result<Seq<u8>, ConfigErrorView> {
    match parts.scheme {
        None => Err(ConfigErrorView::MissingScheme),
        Some(scheme) => if encode_utf8(scheme) != http_scheme() {
            Err(
                ConfigErrorView::UnsupportedScheme {
                    suggestion: http_base(parts) + encode_utf8(parts.path),
                },
            )
        } else if parts.authority is None {
            Err(ConfigErrorView::InvalidUrl)
        } else {
            Ok(http_base(parts))
        },
    }
}

/// The settings made of the given values, or why they are refused: the
/// sandbox root must be absolute, and the upstream URL, parsed to `parsed`,
/// must be a URI with the scheme `http`.
pub open spec fn config_of(
    base_path: Seq<u8>,
    parsed: Option<UriParts>,
    log_level: Seq<char>,
    host: Seq<char>,
    port: u16,
) -> Result<ConfigView, ConfigErrorView> {
    if !is_absolute(base_path) {
        Err(ConfigErrorView::RelativeBasePath)
    } else {
        match parsed {
            None => Err(ConfigErrorView::InvalidUrl),
            Some(parts) => match upstream_base_of(parts) {
                Ok(proxy_to) => Ok(ConfigView { base_path, proxy_to, log_level, host, port }),
                Err(error) => Err(error),
            },
        }
    }
}

impl Config {
    /// The settings are well formed: the sandbox root is absolute, and the
    /// upstream base is `http://` and an authority.
    pub open spec fn wf(&self) -> bool {
        &&& is_absolute(self.base_path@)
        &&& self.proxy_to@.len() >= http_prefix().len()
        &&& self.proxy_to@.subrange(0, http_prefix().len() as int) == http_prefix()
    }

    /// Makes the settings from the resolved sandbox root `base_path`, the
    /// upstream URL `proxy_to` and the rest, or says why they are refused.
    pub fn new(
        base_path: Vec<u8>,
        proxy_to: &str,
        log_level: String,
        host: String,
        port: u16,
    ) -> (r: Result<Config, ConfigError>)
        ensures
            match r {
                Ok(config) => config_of(base_path@, uri_parsed(proxy_to@), log_level@, host@, port)
                    == Ok::<ConfigView, ConfigErrorView>(config@) && config.wf(),
                Err(error) => config_of(base_path@, uri_parsed(proxy_to@), log_level@, host@, port)
                    == Err::<ConfigView, ConfigErrorView>(error@),
            },
    {
        if !(base_path.len() > 0 && base_path[0] == SLASH) {
            return Err(ConfigError::RelativeBasePath);
        }
        let uri = match parse_uri(proxy_to) {
            Ok(uri) => uri,
            Err(_) => {
                return Err(ConfigError::InvalidUrl);
            },
        };
        match upstream_base(&uri) {
            Ok(proxy_to) => Ok(Config { base_path, proxy_to, log_level, host, port }),
            Err(error) => Err(error),
        }
    }
}

/// `http://` and the authority of `uri`.
fn http_base_of(uri: &hyper::Uri) -> (r: Vec<u8>)
    ensures
        r@ == http_base(uri_parts(*uri)),
{
    proof {
        reveal_strlit("http://");
        broadcast use is_ascii_spec_bytes;
        assert(is_ascii("http://"));
    }
    let mut out: Vec<u8> = Vec::new();
    out.extend_from_slice("http://".as_bytes());
    match uri.authority() {
        Some(authority) => {
            out.extend_from_slice(authority.as_str().as_bytes());
        },
        None => {
        },
    }
    out
}

/// Checks the upstream URL `uri` and reduces it to the upstream base: its
/// scheme must be `http`, and it must have an authority; its path and query
/// are left out.
pub fn upstream_base(uri: &hyper::Uri) -> (r: Result<Vec<u8>, ConfigError>)
    ensures
        match r {
            Ok(base) => upstream_base_of(uri_parts(*uri)) == Ok::<Seq<u8>, ConfigErrorView>(base@),
            Err(error) => upstream_base_of(uri_parts(*uri)) == Err::<Seq<u8>, ConfigErrorView>(
                error@,
            ),
        },
        r matches Ok(base) ==> base@.len() >= http_prefix().len() && base@.subrange(
            0,
            http_prefix().len() as int,
        ) == http_prefix(),
{
    proof {
        reveal_strlit("http");
        broadcast use is_ascii_spec_bytes;
        assert(is_ascii("http"));
        assert("http".spec_bytes() =~= http_scheme());
    }
    let scheme = match uri.scheme_str() {
        Some(scheme) => scheme,
        None => {
            return Err(ConfigError::MissingScheme);
        },
    };
    let mut base = http_base_of(uri);
    if !equal(scheme.as_bytes(), "http".as_bytes()) {
        base.extend_from_slice(uri.path().as_bytes());
        assert(base@ == http_base(uri_parts(*uri)) + encode_utf8(uri_parts(*uri).path));
        return Err(ConfigError::UnsupportedScheme { suggestion: base });
    }
    if uri.authority().is_none() {
        return Err(ConfigError::InvalidUrl);
    }
    Ok(base)
}

} // verus!
