//! The certificate-authority machinery: deriving a fresh local root CA from
//! an OS-secure key source, and preparing a signing authority from the PEM
//! material the configuration resolves. The cryptography itself is `rcgen`'s;
//! what is verified here is the sequencing, the error taxonomy, the path
//! computation, the subject profile handed to the signer, and the
//! configuration update.

use vstd::prelude::*;

verus! {

use crate::config::Config;
use crate::proxy::StartupError;
use crate::resource::FileResource;
use crate::resource::Resource;
use crate::resource::join_path;
use crate::resource::spec_join_path;
use rcgen::BasicConstraints;
use rcgen::CertificateParams;
use rcgen::DistinguishedName;
use rcgen::DnType;
use rcgen::IsCa;
use rcgen::KeyUsagePurpose;

#[verifier::external_type_specification]
#[verifier::external_body]
pub struct ExKeyPair(rcgen::KeyPair);

#[verifier::external_type_specification]
#[verifier::external_body]
pub struct ExCertificate(rcgen::Certificate);

#[verifier::external_type_specification]
#[verifier::external_body]
pub struct ExRcgenError(rcgen::Error);

#[verifier::external_type_specification]
#[verifier::external_body]
#[verifier::reject_recursive_types(S)]
pub struct ExIssuer<'a, S>(rcgen::Issuer<'a, S>);

/// The key usages a CA certificate asserts.
#[derive(Debug, Clone, Copy, PartialEq, Eq, Structural)]
pub enum CaKeyUsage {
    KeyCertSign,
    CrlSign,
}

/// The subject profile of a root certificate: its distinguished name, its CA
/// marking, and its key usages — everything the derivation decides about the
/// certificate's content, as plain values.
#[derive(Debug, Clone, PartialEq)]
pub struct CaProfile {
    pub common_name: String,
    pub organization: String,
    pub country: String,
    pub state_or_province: String,
    pub locality: String,
    pub unconstrained_ca: bool,
    pub key_usages: Vec<CaKeyUsage>,
}

/// The profile the proxy's root certificate carries: its fixed distinguished
/// name, marked as an unconstrained certificate authority with key-cert-sign
/// and CRL-sign usages.
pub open spec fn spec_is_proxy_ca_profile(p: CaProfile) -> bool {
    &&& p.common_name@ == "Telescope MITM Proxy"@
    &&& p.organization@ == "The quieter you are, the more you hear"@
    &&& p.country@ == "US"@
    &&& p.state_or_province@ == "NA"@
    &&& p.locality@ == "NA"@
    &&& p.unconstrained_ca
    &&& p.key_usages@ == seq![CaKeyUsage::KeyCertSign, CaKeyUsage::CrlSign]
}

/// The proxy's canonical root-certificate profile.
pub fn proxy_ca_profile() -> (p: CaProfile)
    ensures
        spec_is_proxy_ca_profile(p),
{
    let mut key_usages: Vec<CaKeyUsage> = Vec::new();
    key_usages.push(CaKeyUsage::KeyCertSign);
    key_usages.push(CaKeyUsage::CrlSign);
    proof {
        assert(key_usages@ =~= seq![CaKeyUsage::KeyCertSign, CaKeyUsage::CrlSign]);
    }
    CaProfile {
        common_name: "Telescope MITM Proxy".to_owned(),
        organization: "The quieter you are, the more you hear".to_owned(),
        country: "US".to_owned(),
        state_or_province: "NA".to_owned(),
        locality: "NA".to_owned(),
        unconstrained_ca: true,
        key_usages,
    }
}

/// Relies on rcgen's `CertificateParams`, `DistinguishedName` and
/// `CertificateParams::self_signed`: the profile's fields become the
/// parameters' subject, CA marking and key usages one for one, and the
/// parameters are signed with the key.
#[verifier::external_body]
fn sign_ca_profile(profile: &CaProfile, key: &rcgen::KeyPair) -> Result<
    rcgen::Certificate,
    rcgen::Error,
> {
    let mut params = CertificateParams::default();
    let mut dn = DistinguishedName::new();
    dn.push(DnType::CommonName, profile.common_name.as_str());
    dn.push(DnType::OrganizationName, profile.organization.as_str());
    dn.push(DnType::CountryName, profile.country.as_str());
    dn.push(DnType::StateOrProvinceName, profile.state_or_province.as_str());
    dn.push(DnType::LocalityName, profile.locality.as_str());
    params.distinguished_name = dn;
    params.is_ca = if profile.unconstrained_ca { IsCa::Ca(BasicConstraints::Unconstrained) } else { IsCa::NoCa };
    params.key_usages = profile.key_usages.iter().map(|u| match u {
        CaKeyUsage::KeyCertSign => KeyUsagePurpose::KeyCertSign,
        CaKeyUsage::CrlSign => KeyUsagePurpose::CrlSign,
    }).collect();
    params.self_signed(key)
}

/// Relies on `KeyPair::generate`: a fresh key pair from an OS-secure random
/// source; nothing is promised of its value.
#[verifier::external_body]
fn keypair_generate() -> Result<rcgen::KeyPair, rcgen::Error> {
    rcgen::KeyPair::generate()
}

/// Whether `rcgen` accepts the given text as a PEM-encoded key pair; a
/// function of the text alone.
pub uninterp spec fn ca_key_parse_ok(pem: Seq<char>) -> bool;

/// Relies on `KeyPair::from_pem`: parsing succeeds or fails on the text
/// alone.
#[verifier::external_body]
fn keypair_from_pem(pem: &str) -> (r: Result<rcgen::KeyPair, rcgen::Error>)
    ensures
        r is Ok <==> ca_key_parse_ok(pem@),
{
    rcgen::KeyPair::from_pem(pem)
}

/// Relies on `KeyPair::serialize_pem`: the PEM encoding of the key pair.
#[verifier::external_body]
fn keypair_serialize_pem(key: &rcgen::KeyPair) -> String {
    key.serialize_pem()
}

/// Relies on `Certificate::pem`: the PEM encoding of the certificate.
#[verifier::external_body]
fn certificate_pem(cert: &rcgen::Certificate) -> String {
    cert.pem()
}

/// Whether `rcgen` accepts the given text as a PEM-encoded CA certificate; a
/// function of the text alone.
pub uninterp spec fn ca_cert_parse_ok(pem: Seq<char>) -> bool;

/// Relies on `Issuer::from_ca_cert_pem`: parsing succeeds or fails on the
/// certificate text alone; the key is only stored in the issuer.
#[verifier::external_body]
fn issuer_from_ca_cert_pem(pem: &str, key: rcgen::KeyPair) -> (r: Result<
    rcgen::Issuer<'static, rcgen::KeyPair>,
    rcgen::Error,
>)
    ensures
        r is Ok <==> ca_cert_parse_ok(pem@),
{
    rcgen::Issuer::from_ca_cert_pem(pem, key)
}

/// A signing authority ready to mint leaf certificates, parsed from the
/// configuration's CA material.
pub struct PreparedCa {
    pub issuer: rcgen::Issuer<'static, rcgen::KeyPair>,
}

/// The start-up step that unwraps the CA material: parse the key, then the
/// certificate, mapping the first failure into the start-up taxonomy.
pub fn prepare_ca(key_pem: &str, cert_pem: &str) -> (r: Result<PreparedCa, StartupError>)
    ensures
        r is Err ==> (r->Err_0 == StartupError::BadCaKey || r->Err_0 == StartupError::BadCaCert),
        (r matches Err(e) && e == StartupError::BadCaKey) <==> !ca_key_parse_ok(key_pem@),
        ca_key_parse_ok(key_pem@) ==> ((r is Ok) <==> ca_cert_parse_ok(cert_pem@)),
{
    let key = match keypair_from_pem(key_pem) {
        Ok(key) => key,
        Err(_) => {
            return Err(StartupError::BadCaKey);
        },
    };
    match issuer_from_ca_cert_pem(cert_pem, key) {
        Ok(issuer) => Ok(PreparedCa { issuer }),
        Err(_) => Err(StartupError::BadCaCert),
    }
}

#[verifier::external_type_specification]
#[verifier::external_body]
pub struct ExRcgenAuthority(hudsucker::certificate_authority::RcgenAuthority);

#[verifier::external_type_specification]
#[verifier::external_body]
pub struct ExCryptoProvider(hudsucker::rustls::crypto::CryptoProvider);

/// Relies on `rustls`'s `aws_lc_rs::default_provider`: the default
/// cryptographic provider.
#[verifier::external_body]
fn default_crypto_provider() -> hudsucker::rustls::crypto::CryptoProvider {
    hudsucker::rustls::crypto::aws_lc_rs::default_provider()
}

/// Relies on `RcgenAuthority::new`: an authority that mints leaf
/// certificates signed by the issuer and caches at most `cache_size` of
/// them.
#[verifier::external_body]
fn authority_new(
    issuer: rcgen::Issuer<'static, rcgen::KeyPair>,
    cache_size: u64,
    provider: hudsucker::rustls::crypto::CryptoProvider,
) -> hudsucker::certificate_authority::RcgenAuthority {
    hudsucker::certificate_authority::RcgenAuthority::new(issuer, cache_size, provider)
}

/// How many leaf certificates the authority keeps warm: TLS handshakes are
/// latency-sensitive, so a per-host cache keeps the critical path off
/// cryptographic operations after warm-up.
pub const LEAF_CACHE_SIZE: u64 = 1000;

/// The engine's leaf authority: the CA material parsed by `prepare_ca`,
/// wrapped in a minting authority with a leaf cache bounded at
/// `LEAF_CACHE_SIZE`.
pub fn build_leaf_authority(key_pem: &str, cert_pem: &str) -> (r: Result<
    hudsucker::certificate_authority::RcgenAuthority,
    StartupError,
>)
    ensures
        r is Err ==> (r->Err_0 == StartupError::BadCaKey || r->Err_0 == StartupError::BadCaCert),
        (r matches Err(e) && e == StartupError::BadCaKey) <==> !ca_key_parse_ok(key_pem@),
        ca_key_parse_ok(key_pem@) ==> ((r is Ok) <==> ca_cert_parse_ok(cert_pem@)),
{
    match prepare_ca(key_pem, cert_pem) {
        Ok(prepared) => Ok(authority_new(prepared.issuer, LEAF_CACHE_SIZE, default_crypto_provider())),
        Err(e) => Err(e),
    }
}

/// Why a CA derivation failed; cryptographic-library failures surface as
/// operational errors, never as panics.
#[derive(Debug, Clone, Copy, PartialEq, Eq, Structural)]
pub enum CaDeriveError {
    KeyGeneration,
    SelfSign,
}

/// A freshly derived CA: the PEM material, the paths under the data
/// directory where the host writes it, and the subject profile the
/// certificate was signed with.
#[derive(Debug, Clone, PartialEq)]
pub struct DerivedCa {
    pub key_path: String,
    pub cert_path: String,
    pub key_pem: String,
    pub cert_pem: String,
    pub profile: CaProfile,
}

/// Derivation of a fresh local root CA from a configuration.
pub trait CertDerivable {
    fn derive_cert(&self) -> Result<DerivedCa, CaDeriveError>;
}

impl CertDerivable for Config {
    /// Mint a fresh CA key pair, sign the proxy's canonical profile with it,
    /// and name the conventional paths under the data directory. The host
    /// writes the returned PEM material to the returned paths, then commits
    /// with `install_derived_ca`; the configuration is untouched until then,
    /// so it never names files that were not written.
    fn derive_cert(&self) -> (r: Result<DerivedCa, CaDeriveError>)
        ensures
            r matches Ok(d) ==> ({
                &&& d.cert_path@ == spec_join_path(self.data_dir@, "cert.pem"@)
                &&& d.key_path@ == spec_join_path(self.data_dir@, "key.pem"@)
                &&& spec_is_proxy_ca_profile(d.profile)
            }),
    {
        let cert_path = join_path(self.data_dir.as_str(), "cert.pem");
        let key_path = join_path(self.data_dir.as_str(), "key.pem");
        let profile = proxy_ca_profile();

        let key_pair = match keypair_generate() {
            Ok(key_pair) => key_pair,
            Err(_) => {
                return Err(CaDeriveError::KeyGeneration);
            },
        };
        let cert = match sign_ca_profile(&profile, &key_pair) {
            Ok(cert) => cert,
            Err(_) => {
                return Err(CaDeriveError::SelfSign);
            },
        };
        let cert_pem = certificate_pem(&cert);
        let key_pem = keypair_serialize_pem(&key_pair);

        Ok(DerivedCa { key_path, cert_path, key_pem, cert_pem, profile })
    }
}

impl Config {
    /// Commit a finished derivation: point this configuration's CA resources
    /// at the conventional file names under the data directory. Called after
    /// the derived material has actually been written there.
    pub fn install_derived_ca(&mut self)
        ensures
            final(self).ca.certificate matches Resource::File(f) && f.path@ == "cert.pem"@,
            final(self).ca.key_pair matches Resource::File(f2) && f2.path@ == "key.pem"@,
            final(self).addr == old(self).addr,
            final(self).data_dir == old(self).data_dir,
            final(self).loaded == old(self).loaded,
    {
        self.ca.certificate = Resource::File(FileResource::new("cert.pem"));
        self.ca.key_pair = Resource::File(FileResource::new("key.pem"));
    }
}

} // verus!
