use telescope_core::certs::CaKeyUsage;
use telescope_core::certs::CertDerivable;
use telescope_core::certs::prepare_ca;
use telescope_core::certs::proxy_ca_profile;
use telescope_core::config::Config;
use telescope_core::proxy::StartupError;
use telescope_core::resource::FileResource;
use telescope_core::resource::Resource;

fn derived_config() -> Config {
    let mut c = Config::try_load_or_default("/data", None);
    c.update_data_dir("/data".to_string());
    c
}

#[test]
fn derive_cert_produces_usable_ca() {
    let mut c = derived_config();
    let d = c.derive_cert().expect("derivation should succeed");
    assert_eq!(d.cert_path, "/data/cert.pem".to_string());
    assert_eq!(d.key_path, "/data/key.pem".to_string());
    assert!(d.cert_pem.contains("BEGIN CERTIFICATE"));
    assert!(d.key_pem.contains("PRIVATE KEY"));

    // The derivation decided this certificate profile.
    assert_eq!(d.profile, proxy_ca_profile());
    assert_eq!(d.profile.common_name, "Telescope MITM Proxy".to_string());
    assert_eq!(d.profile.organization, "The quieter you are, the more you hear".to_string());
    assert_eq!(d.profile.country, "US".to_string());
    assert_eq!(d.profile.state_or_province, "NA".to_string());
    assert_eq!(d.profile.locality, "NA".to_string());
    assert!(d.profile.unconstrained_ca);
    assert_eq!(d.profile.key_usages, vec![CaKeyUsage::KeyCertSign, CaKeyUsage::CrlSign]);

    // The configuration is untouched until the host commits after writing.
    assert_eq!(c.ca.key_pair, Resource::File(FileResource::new("key_pair.pem")));
    c.install_derived_ca();
    assert_eq!(c.ca.certificate, Resource::File(FileResource::new("cert.pem")));
    assert_eq!(c.ca.key_pair, Resource::File(FileResource::new("key.pem")));
    assert_eq!(c.data_dir, "/data".to_string());

    // The derived material parses back into a signing authority.
    let prepared = prepare_ca(&d.key_pem, &d.cert_pem).expect("derived CA should parse");

    // ... and that authority signs a leaf certificate.
    let leaf_key = rcgen::KeyPair::generate().expect("leaf key");
    let leaf_params =
        rcgen::CertificateParams::new(vec!["example.com".to_string()]).expect("leaf params");
    leaf_params.signed_by(&leaf_key, &prepared.issuer).expect("leaf should sign");
}

#[test]
fn derived_certificate_carries_the_profile_usages() {
    // Parse the signed certificate back and check the profile's key usages
    // really reached it.
    let c = derived_config();
    let d = c.derive_cert().expect("derivation");
    let parsed = rcgen::Issuer::from_ca_cert_pem(
        &d.cert_pem,
        rcgen::KeyPair::from_pem(&d.key_pem).expect("key parses"),
    )
    .expect("certificate parses");
    let mut usages = parsed.key_usages().to_vec();
    usages.sort_by_key(|u| format!("{:?}", u));
    assert_eq!(
        usages,
        vec![rcgen::KeyUsagePurpose::CrlSign, rcgen::KeyUsagePurpose::KeyCertSign]
    );
}

#[test]
fn derive_cert_twice_yields_two_valid_cas() {
    let c = derived_config();
    let first = c.derive_cert().expect("first derivation");
    let second = c.derive_cert().expect("second derivation");
    // Fresh randomness: the two CAs are distinct ...
    assert_ne!(first.key_pem, second.key_pem);
    assert_ne!(first.cert_pem, second.cert_pem);
    // ... and each is independently usable.
    prepare_ca(&first.key_pem, &first.cert_pem).expect("first CA parses");
    prepare_ca(&second.key_pem, &second.cert_pem).expect("second CA parses");
    // Both rounds write to the same paths, so the second overwrites the first.
    assert_eq!(first.cert_path, second.cert_path);
    assert_eq!(first.key_path, second.key_path);
}

#[test]
fn leaf_authority_builds_from_derived_material() {
    let c = derived_config();
    let d = c.derive_cert().expect("derivation");
    assert!(telescope_core::certs::build_leaf_authority(&d.key_pem, &d.cert_pem).is_ok());
    match telescope_core::certs::build_leaf_authority("junk", &d.cert_pem) {
        Err(e) => assert_eq!(e, StartupError::BadCaKey),
        Ok(_) => panic!("junk key material must be refused"),
    }
}

#[test]
fn prepare_ca_reports_bad_key() {
    let c = derived_config();
    let d = c.derive_cert().expect("derivation");
    match prepare_ca("not a key", &d.cert_pem) {
        Err(e) => assert_eq!(e, StartupError::BadCaKey),
        Ok(_) => panic!("junk key material must be refused"),
    }
}

#[test]
fn prepare_ca_reports_bad_cert() {
    let c = derived_config();
    let d = c.derive_cert().expect("derivation");
    match prepare_ca(&d.key_pem, "not a certificate") {
        Err(e) => assert_eq!(e, StartupError::BadCaCert),
        Ok(_) => panic!("junk certificate material must be refused"),
    }
}
