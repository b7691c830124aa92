//! Client TLS identity discovery.
//!
//! When mutual TLS is enabled, the client presents a certificate chain and a
//! signing key found on disk, the way the well-known CLI does: a base
//! directory is chosen once (an explicit cert-path override, else a
//! config-directory override, else `.docker` under the home directory), and
//! in it `cert.pem` holds the leaf certificates, `ca.pem` is appended to the
//! same chain, and `key.pem` holds exactly one private key, in PKCS#8 or RSA
//! PEM form. Zero keys, several keys, or an unusable key is a fatal
//! resolution error, never a silent skip.
//!
//! The caller reads the files; this module makes every decision about their
//! contents.

use vstd::prelude::*;

use crate::errors::{decimal_str, usize_decimal, Error};

verus! {

/// Where the certificate directory may come from, captured once from the
/// environment at client construction.
#[derive(Debug, Clone)]
pub struct CertLocations {
    /// An explicit cert-path override.
    pub cert_path: Option<String>,
    /// A config-directory override.
    pub config_dir: Option<String>,
    /// The home directory, if one is known.
    pub home: Option<String>,
}

/// The directory searched for certificate files: the explicit override, else
/// the config-directory override, else `.docker` under the home directory.
pub open spec fn cert_dir_of(locs: CertLocations) -> Option<Seq<char>> {
    if locs.cert_path is Some {
        Some(locs.cert_path->0@)
    } else if locs.config_dir is Some {
        Some(locs.config_dir->0@)
    } else if locs.home is Some {
        Some(locs.home->0@ + "/.docker"@)
    } else {
        None
    }
}

/// Whether mutual TLS is enabled: exactly when the TLS-verify environment
/// signal is present, whatever its value.
pub fn should_enable_tls(tls_verify: &Option<String>) -> (r: bool)
    ensures
        r == (tls_verify is Some),
{
    tls_verify.is_some()
}

/// The directory in which to look for the certificate files.
pub fn default_cert_path(locs: &CertLocations) -> (r: Result<String, Error>)
    ensures
        (cert_dir_of(*locs) matches Some(d) ==> r matches Ok(s) && s@ == d),
        (cert_dir_of(*locs) is None ==> (r matches Err(e) && e matches Error::Certificate {
            detail,
        } && detail@ == "cannot find home directory for Docker certificates"@)),
{
    match &locs.cert_path {
        Some(p) => Ok(p.clone()),
        None => match &locs.config_dir {
            Some(p) => Ok(p.clone()),
            None => match &locs.home {
                Some(h) => {
                    let mut dir = h.clone();
                    dir.append("/.docker");
                    Ok(dir)
                },
                None => Err(
                    Error::Certificate {
                        detail: String::from_str(
                            "cannot find home directory for Docker certificates",
                        ),
                    },
                ),
            },
        },
    }
}

/// The path of `ca.pem` inside the certificate directory.
pub fn docker_ca_pem_path(locs: &CertLocations) -> (r: Result<String, Error>)
    ensures
        (cert_dir_of(*locs) matches Some(d) ==> r matches Ok(s) && s@ == d + "/ca.pem"@),
        (cert_dir_of(*locs) is None ==> (r matches Err(e) && e matches Error::Certificate {
            detail,
        } && detail@ == "cannot find home directory for Docker certificates"@)),
{
    match default_cert_path(locs) {
        Ok(mut dir) => {
            dir.append("/ca.pem");
            Ok(dir)
        },
        Err(e) => Err(e),
    }
}

/// The DER contents of the CERTIFICATE sections of a PEM file, or nothing
/// where the file does not scan.
pub uninterp spec fn pem_certs_of(data: Seq<u8>) -> Option<Seq<Seq<u8>>>;

/// Relies on `rustls::internal::pemfile::certs`: extracts the DER contents
/// of each CERTIFICATE section; the result depends on the bytes alone.
#[verifier::external_body]
pub(crate) fn pem_certs(data: &[u8]) -> (r: Option<Vec<Vec<u8>>>)
    ensures
        r is Some <==> pem_certs_of(data@) is Some,
        (r matches Some(v) ==> Some(v.deep_view()) == pem_certs_of(data@)),
{
    rustls::internal::pemfile::certs(&mut std::io::Cursor::new(data)).ok().map(
        |cs: Vec<rustls::Certificate>| cs.into_iter().map(|c| c.0).collect(),
    )
}

/// The DER contents of the PKCS#8 PRIVATE KEY sections of a PEM file, or
/// nothing where the file does not scan.
pub uninterp spec fn pkcs8_keys_of(data: Seq<u8>) -> Option<Seq<Seq<u8>>>;

/// Relies on `rustls::internal::pemfile::pkcs8_private_keys`: extracts the
/// DER contents of each PRIVATE KEY section; the result depends on the bytes
/// alone.
#[verifier::external_body]
fn pem_pkcs8_keys(data: &[u8]) -> (r: Option<Vec<Vec<u8>>>)
    ensures
        r is Some <==> pkcs8_keys_of(data@) is Some,
        (r matches Some(v) ==> Some(v.deep_view()) == pkcs8_keys_of(data@)),
{
    rustls::internal::pemfile::pkcs8_private_keys(&mut std::io::Cursor::new(data)).ok().map(
        |ks: Vec<rustls::PrivateKey>| ks.into_iter().map(|k| k.0).collect(),
    )
}

/// The DER contents of the RSA PRIVATE KEY sections of a PEM file, or
/// nothing where the file does not scan.
pub uninterp spec fn rsa_keys_of(data: Seq<u8>) -> Option<Seq<Seq<u8>>>;

/// Relies on `rustls::internal::pemfile::rsa_private_keys`: extracts the DER
/// contents of each RSA PRIVATE KEY section; the result depends on the bytes
/// alone.
#[verifier::external_body]
fn pem_rsa_keys(data: &[u8]) -> (r: Option<Vec<Vec<u8>>>)
    ensures
        r is Some <==> rsa_keys_of(data@) is Some,
        (r matches Some(v) ==> Some(v.deep_view()) == rsa_keys_of(data@)),
{
    rustls::internal::pemfile::rsa_private_keys(&mut std::io::Cursor::new(data)).ok().map(
        |ks: Vec<rustls::PrivateKey>| ks.into_iter().map(|k| k.0).collect(),
    )
}

/// Whether a DER blob is a usable RSA signing key.
pub uninterp spec fn rsa_signing_key_parses(der: Seq<u8>) -> bool;

/// Relies on `rustls::sign::RSASigningKey::new`: whether a DER blob parses
/// as an RSA key pair, in PKCS#1 or PKCS#8 form, depends on the blob alone.
#[verifier::external_body]
fn rsa_signing_key_ok(der: &[u8]) -> (r: bool)
    ensures
        r == rsa_signing_key_parses(der@),
{
    rustls::sign::RSASigningKey::new(&rustls::PrivateKey(der.to_vec())).is_ok()
}

/// The private keys found in `key.pem`: the PKCS#8 keys, or, where those
/// sections yield none, the RSA PEM keys.
pub open spec fn client_keys_of(key_data: Seq<u8>) -> Option<Seq<Seq<u8>>> {
    match pkcs8_keys_of(key_data) {
        Some(ks) => if ks.len() > 0 {
            Some(ks)
        } else {
            rsa_keys_of(key_data)
        },
        None => None,
    }
}

/// A resolved client identity: an ordered, non-empty certificate chain
/// (leaf certificates first, appended authority certificates after) and
/// exactly one usable private key, all in DER form.
#[derive(Debug, Clone)]
pub struct CertificateBundle {
    /// The certificate chain to present.
    pub chain: Vec<Vec<u8>>,
    /// The DER encoding of the one private key.
    pub key_der: Vec<u8>,
}

impl CertificateBundle {
    /// A bundle is never partially usable: the chain is non-empty and the
    /// key is a usable RSA signing key.
    pub open spec fn wf(self) -> bool {
        self.chain@.len() > 0 && rsa_signing_key_parses(self.key_der@)
    }
}

/// What identity resolution yields from the three files' contents (`None`
/// standing for an unreadable file): the chain and the key on success,
/// nothing on failure.
pub open spec fn resolution_of(
    cert: Option<Seq<u8>>,
    ca: Option<Seq<u8>>,
    key: Option<Seq<u8>>,
) -> Option<(Seq<Seq<u8>>, Seq<u8>)> {
    if cert is None || pem_certs_of(cert->0) is None || ca is None || pem_certs_of(ca->0) is None
        || key is None || client_keys_of(key->0) is None {
        None
    } else if client_keys_of(key->0)->0.len() != 1 {
        None
    } else if !rsa_signing_key_parses(client_keys_of(key->0)->0[0]) {
        None
    } else if pem_certs_of(cert->0)->0.len() + pem_certs_of(ca->0)->0.len() == 0 {
        None
    } else {
        Some((pem_certs_of(cert->0)->0 + pem_certs_of(ca->0)->0, client_keys_of(key->0)->0[0]))
    }
}

/// The message of the error that resolution fails with, naming the offending
/// path; meaningful where `resolution_of` yields nothing.
pub open spec fn resolution_error_of(
    dir: Seq<char>,
    cert: Option<Seq<u8>>,
    ca: Option<Seq<u8>>,
    key: Option<Seq<u8>>,
) -> Seq<char> {
    if cert is None {
        "cannot open "@ + dir + "/cert.pem"@
    } else if pem_certs_of(cert->0) is None {
        "cannot read "@ + dir + "/cert.pem"@
    } else if ca is None {
        "cannot open "@ + dir + "/ca.pem"@
    } else if pem_certs_of(ca->0) is None {
        "cannot read "@ + dir + "/ca.pem"@
    } else if key is None {
        "cannot open "@ + dir + "/key.pem"@
    } else if client_keys_of(key->0) is None {
        "cannot read "@ + dir + "/key.pem"@
    } else if client_keys_of(key->0)->0.len() != 1 {
        "expected 1 private key in "@ + dir + "/key.pem, found "@ + decimal_str(
            client_keys_of(key->0)->0.len(),
        )
    } else if !rsa_signing_key_parses(client_keys_of(key->0)->0[0]) {
        "could not parse signing key from "@ + dir + "/key.pem"@
    } else {
        "no certificates found in "@ + dir + "/cert.pem or "@ + dir + "/ca.pem"@
    }
}

/// An error carrying `prefix`, `dir` and `suffix` run together.
fn cert_path_error(prefix: &str, dir: &str, suffix: &str) -> (e: Error)
    ensures
        (e matches Error::Certificate { detail } && detail@ == prefix@ + dir@ + suffix@),
{
    let mut detail = String::from_str(prefix);
    detail.append(dir);
    detail.append(suffix);
    Error::Certificate { detail }
}

/// Resolves the client identity from the contents of the three certificate
/// files in directory `dir` (`None` standing for a file that could not be
/// read). The chain is `cert.pem`'s certificates with `ca.pem`'s appended;
/// `key.pem` must yield exactly one key, which must be a usable RSA signing
/// key. Every failure names the offending path.
pub fn resolve_client_key(
    dir: &str,
    cert_pem: &Option<Vec<u8>>,
    ca_pem: &Option<Vec<u8>>,
    key_pem: &Option<Vec<u8>>,
) -> (r: Result<CertificateBundle, Error>)
    ensures
        r is Ok <==> resolution_of(cert_pem.deep_view(), ca_pem.deep_view(), key_pem.deep_view())
            is Some,
        (r matches Ok(b) ==> b.wf() && Some((b.chain.deep_view(), b.key_der@)) == resolution_of(
            cert_pem.deep_view(),
            ca_pem.deep_view(),
            key_pem.deep_view(),
        )),
        (r matches Err(e) ==> e matches Error::Certificate { detail } && detail@
            == resolution_error_of(
            dir@,
            cert_pem.deep_view(),
            ca_pem.deep_view(),
            key_pem.deep_view(),
        )),
{
    let cert_data = match cert_pem {
        Some(d) => d,
        None => {
            return Err(cert_path_error("cannot open ", dir, "/cert.pem"));
        },
    };
    proof {
        assert(cert_pem.deep_view()->0 =~= cert_data@);
    }
    let mut chain = match pem_certs(cert_data.as_slice()) {
        Some(cs) => cs,
        None => {
            return Err(cert_path_error("cannot read ", dir, "/cert.pem"));
        },
    };
    let ca_data = match ca_pem {
        Some(d) => d,
        None => {
            return Err(cert_path_error("cannot open ", dir, "/ca.pem"));
        },
    };
    proof {
        assert(ca_pem.deep_view()->0 =~= ca_data@);
    }
    let mut ca_certs = match pem_certs(ca_data.as_slice()) {
        Some(cs) => cs,
        None => {
            return Err(cert_path_error("cannot read ", dir, "/ca.pem"));
        },
    };
    let ghost leaf_certs = chain.deep_view();
    let ghost authority_certs = ca_certs.deep_view();
    chain.append(&mut ca_certs);
    proof {
        assert(chain.deep_view() =~= leaf_certs + authority_certs);
    }
    let key_data = match key_pem {
        Some(d) => d,
        None => {
            return Err(cert_path_error("cannot open ", dir, "/key.pem"));
        },
    };
    proof {
        assert(key_pem.deep_view()->0 =~= key_data@);
    }
    let pkcs8 = match pem_pkcs8_keys(key_data.as_slice()) {
        Some(ks) => ks,
        None => {
            return Err(cert_path_error("cannot read ", dir, "/key.pem"));
        },
    };
    let mut keys = if pkcs8.len() > 0 {
        pkcs8
    } else {
        match pem_rsa_keys(key_data.as_slice()) {
            Some(ks) => ks,
            None => {
                return Err(cert_path_error("cannot read ", dir, "/key.pem"));
            },
        }
    };
    if keys.len() != 1 {
        let mut detail = String::from_str("expected 1 private key in ");
        detail.append(dir);
        detail.append("/key.pem, found ");
        let count = usize_decimal(keys.len());
        detail.append(count.as_str());
        return Err(Error::Certificate { detail });
    }
    let ghost found_keys = keys.deep_view();
    let key = keys.remove(0);
    proof {
        assert(key.deep_view() =~= key@);
        assert(found_keys[0] == key@);
    }
    if !rsa_signing_key_ok(key.as_slice()) {
        return Err(cert_path_error("could not parse signing key from ", dir, "/key.pem"));
    }
    if chain.len() == 0 {
        let mut detail = String::from_str("no certificates found in ");
        detail.append(dir);
        detail.append("/cert.pem or ");
        detail.append(dir);
        detail.append("/ca.pem");
        return Err(Error::Certificate { detail });
    }
    Ok(CertificateBundle { chain, key_der: key })
}

/// Supplies the client identity on demand, as the TLS layer asks for one.
/// With mutual TLS disabled there is never an identity, regardless of what
/// the certificate directory holds; with it enabled, the identity is
/// whatever resolution yields, and a failed resolution presents nothing.
pub fn resolve_identity(
    tls_enabled: bool,
    dir: &str,
    cert_pem: &Option<Vec<u8>>,
    ca_pem: &Option<Vec<u8>>,
    key_pem: &Option<Vec<u8>>,
) -> (r: Option<CertificateBundle>)
    ensures
        !tls_enabled ==> r is None,
        tls_enabled ==> (r is Some <==> resolution_of(
            cert_pem.deep_view(),
            ca_pem.deep_view(),
            key_pem.deep_view(),
        ) is Some),
        (r matches Some(b) ==> tls_enabled && b.wf() && Some((b.chain.deep_view(), b.key_der@))
            == resolution_of(cert_pem.deep_view(), ca_pem.deep_view(), key_pem.deep_view())),
{
    if !tls_enabled {
        return None;
    }
    match resolve_client_key(dir, cert_pem, ca_pem, key_pem) {
        Ok(bundle) => Some(bundle),
        Err(_) => None,
    }
}

} // verus!
