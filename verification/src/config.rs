//! Typed configuration for the proxy: the listen address, the certificate
//! authority's key and certificate resources, and the data directory the host
//! injects. The host distributes one `Config` through a watch channel; the
//! engine reads a snapshot per connection.

use vstd::prelude::*;

verus! {

use crate::resource::FileResource;
use crate::resource::ResolveString;
use crate::resource::Resource;
use crate::resource::ResolvedString;
use crate::resource::join_path;
use crate::resource::spec_join_path;
use vstd::utf8::decode_utf8;
use vstd::utf8::valid_utf8;

/// The certificate-authority material the proxy signs leaf certificates with.
#[derive(Debug, Clone, PartialEq)]
pub struct CertificateAuthority {
    pub key_pair: Resource,
    pub certificate: Resource,
}

/// The proxy's configuration. `data_dir` is not read from disk: the host
/// injects it when the configuration is loaded.
#[derive(Debug, Clone, PartialEq)]
pub struct Config {
    pub ca: CertificateAuthority,
    pub addr: String,
    pub data_dir: String,
    pub loaded: bool,
}

/// The defaulted listen address and CA resources: localhost on port 8080,
/// with the CA material at its conventional relative paths.
pub open spec fn spec_default_addr_and_ca(c: Config) -> bool {
    &&& c.addr@ == "127.0.0.1:8080"@
    &&& c.ca.key_pair matches Resource::File(f) && f.path@ == "key_pair.pem"@
    &&& c.ca.certificate matches Resource::File(f) && f.path@ == "certificate.pem"@
}

/// What a freshly constructed configuration holds.
pub open spec fn spec_is_default_config(c: Config) -> bool {
    &&& spec_default_addr_and_ca(c)
    &&& c.data_dir@ == Seq::<char>::empty()
    &&& !c.loaded
}

impl Default for Config {
    fn default() -> (c: Self)
        ensures
            spec_is_default_config(c),
    {
        Config {
            ca: CertificateAuthority {
                key_pair: Resource::File(FileResource::new("key_pair.pem")),
                certificate: Resource::File(FileResource::new("certificate.pem")),
            },
            addr: "127.0.0.1:8080".to_owned(),
            data_dir: String::new(),
            loaded: false,
        }
    }
}

impl Config {
    /// The load policy: a configuration parsed from the data directory's
    /// configuration file is taken as-is with `loaded` set and the host's
    /// data directory injected; when no parse result is available, the
    /// defaults stand, anchored at the same directory. The host performs the
    /// file read and parse and hands the outcome in.
    pub fn try_load_or_default(data_dir: &str, parsed: Option<Config>) -> (c: Config)
        ensures
            parsed matches Some(p) ==> (c.ca == p.ca && c.addr == p.addr && c.loaded && c.data_dir@ == data_dir@),
            parsed is None ==> (spec_default_addr_and_ca(c) && !c.loaded && c.data_dir@ == data_dir@),
    {
        match parsed {
            Some(p) => Config { data_dir: data_dir.to_owned(), loaded: true, ..p },
            None => {
                let mut c = Config::default();
                c.update_data_dir(data_dir.to_owned());
                c
            },
        }
    }

    /// Re-anchor the configuration at a new data directory.
    pub fn update_data_dir(&mut self, data_dir: String)
        ensures
            *final(self) == (Config { data_dir, ..*old(self) }),
    {
        self.data_dir = data_dir;
    }
}

impl ResolveString for Config {
    /// As `Resource::as_string`, except that a `File` path is first anchored
    /// to this configuration's data directory.
    fn resolve_string(&self, resource: &Resource) -> (r: ResolvedString)
        ensures
            resource is Memory && valid_utf8(resource->Memory_0.buffer@) ==> (r matches ResolvedString::Ready(s)
                && s@ == decode_utf8(resource->Memory_0.buffer@)),
            resource is Memory && !valid_utf8(resource->Memory_0.buffer@) ==> r is NotUtf8,
            resource is InlineString ==> (r matches ResolvedString::Ready(s) && s@
                == resource->InlineString_0.string@),
            resource is File ==> (r matches ResolvedString::ReadFrom(p) && p@ == spec_join_path(
                self.data_dir@,
                resource->File_0.path@,
            )),
    {
        match resource {
            Resource::File(f) => ResolvedString::ReadFrom(join_path(self.data_dir.as_str(), f.path.as_str())),
            _ => resource.as_string(),
        }
    }
}

} // verus!
