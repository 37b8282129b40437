//! The name that the server's certificate is for, and how such a certificate is made.

use vstd::prelude::*;
use crate::client::ClientError;
#[allow(unused_imports)]
use crate::config::TlsConfig;
#[allow(unused_imports)]
use crate::tls::{
    client_root_present, pem_certificates, pem_pkcs8_keys, server_key_present, server_pem_reads,
};

verus! {

/// The name that the server's certificate is for, and that the client checks it for.
pub const SERVER_NAME: &'static str = "snp";

/// The file that the certificate goes into.
pub const CERT_FILE: &'static str = "cert.pem";

/// The file that the private key goes into.
pub const KEY_FILE: &'static str = "key.pem";

/// A certificate together with its private key.
#[verifier::external_type_specification]
#[verifier::external_body]
pub struct ExCertificate(rcgen::Certificate);

/// The error of making a certificate, which is carried and never looked into.
#[verifier::external_type_specification]
#[verifier::external_body]
pub struct ExRcgenError(rcgen::Error);

/// The name of a server, as TLS checks it.
#[verifier::external_type_specification]
#[verifier::external_body]
pub struct ExServerName<'a>(rustls::pki_types::ServerName<'a>);

/// The error of a text that is no server name, which is never looked into.
#[verifier::external_type_specification]
#[verifier::external_body]
pub struct ExInvalidDnsNameError(rustls::pki_types::InvalidDnsNameError);

/// Whether a certificate is one that `rcgen::generate_simple_self_signed` made for plain
/// labels.
pub uninterp spec fn simply_generated(certificate: rcgen::Certificate) -> bool;

/// The DNS names that a certificate is for.
pub uninterp spec fn certificate_names(certificate: rcgen::Certificate) -> Seq<Seq<char>>;

/// The private key that belongs to a certificate, in DER; `None` where the key is kept
/// elsewhere.
pub uninterp spec fn certificate_key(certificate: rcgen::Certificate) -> Option<Seq<u8>>;

/// The public key that belongs to a private key in DER.
pub uninterp spec fn public_key_of(key: Seq<u8>) -> Seq<u8>;

/// The DNS names and the public key in the certificate of a PEM text.
pub uninterp spec fn pem_subject(pem: Seq<char>) -> (Seq<Seq<char>>, Seq<u8>);

/// Whether `rustls::pki_types::ServerName::try_from` takes the text.
pub uninterp spec fn is_server_name(text: Seq<char>) -> bool;

/// The text of a server name.
pub uninterp spec fn server_name_text(name: rustls::pki_types::ServerName<'static>) -> Seq<char>;

/// A DNS name that is a single label of lower-case letters.
pub open spec fn plain_label(name: Seq<char>) -> bool {
    &&& 0 < name.len() <= 63
    &&& forall|i: int| 0 <= i < name.len() ==> 'a' <= #[trigger] name[i] <= 'z'
}

/// The texts of a list of strings.
pub open spec fn texts(items: Seq<String>) -> Seq<Seq<char>> {
    Seq::new(items.len(), |i: int| items[i]@)
}

/// Calls `rcgen::generate_simple_self_signed`, which makes a key pair at random and a
/// certificate for the names. Whether a key pair can be made rests with the machine.
#[verifier::external_body]
fn self_signed(names: Vec<String>) -> (certificate: Result<rcgen::Certificate, rcgen::Error>)
    requires
        forall|i: int| 0 <= i < names@.len() ==> plain_label(#[trigger] names@[i]@),
    ensures
        certificate matches Ok(c) ==> {
            &&& simply_generated(c)
            &&& certificate_names(c) == texts(names@)
            &&& certificate_key(c) is Some
        },
{
    rcgen::generate_simple_self_signed(names)
}

/// Calls `rcgen::Certificate::serialize_pem` on a certificate that [`self_signed`] made:
/// it signs the certificate and writes it as the one section of a PEM text. The
/// signature may differ from call to call.
#[verifier::external_body]
fn certificate_pem(certificate: &rcgen::Certificate) -> (pem: Result<String, rcgen::Error>)
    requires
        simply_generated(*certificate),
        certificate_key(*certificate) is Some,
    ensures
        pem matches Ok(text) ==> {
            &&& pem_certificates(text@) is Some
            &&& pem_certificates(text@)->0.len() == 1
            &&& pem_subject(text@) == (
                certificate_names(*certificate),
                public_key_of(certificate_key(*certificate)->0),
            )
        },
{
    certificate.serialize_pem()
}

/// Calls `rcgen::Certificate::serialize_private_key_pem`, which writes the private key
/// in PKCS#8 as the one section of a PEM text.
#[verifier::external_body]
fn private_key_pem(certificate: &rcgen::Certificate) -> (pem: String)
    requires
        certificate_key(*certificate) is Some,
    ensures
        pem_pkcs8_keys(pem@) == Some(seq![certificate_key(*certificate)->0]),
{
    certificate.serialize_private_key_pem()
}

/// Calls `rustls::pki_types::ServerName::try_from`. A label of lower-case letters is
/// taken, as a DNS name that keeps its text.
#[verifier::external_body]
fn parse_server_name(text: &'static str) -> (name: Result<
    rustls::pki_types::ServerName<'static>,
    rustls::pki_types::InvalidDnsNameError,
>)
    ensures
        match name {
            Ok(n) => is_server_name(text@) && (plain_label(text@) ==> server_name_text(n) == text@),
            Err(_) => !is_server_name(text@) && !plain_label(text@),
        },
{
    rustls::pki_types::ServerName::try_from(text)
}

/// A file to write, with its contents or why there are none.
pub struct TlsFile {
    pub path: &'static str,
    pub contents: Result<String, rcgen::Error>,
}

/// Whether the files are one for a certificate for the names, where it could be signed,
/// and one with the private key that belongs to it.
pub open spec fn holds_identity(files: Seq<TlsFile>, names: Seq<Seq<char>>) -> bool {
    &&& files.len() == 2
    &&& files[0].path@ == CERT_FILE@
    &&& files[1].path@ == KEY_FILE@
    &&& files[1].contents matches Ok(key)
    &&& pem_pkcs8_keys(key@) is Some
    &&& pem_pkcs8_keys(key@)->0.len() == 1
    &&& files[0].contents matches Ok(cert) ==> {
        &&& pem_certificates(cert@) is Some
        &&& pem_certificates(cert@)->0.len() == 1
        &&& pem_subject(cert@) == (names, public_key_of(pem_pkcs8_keys(key@)->0[0]))
    }
}

/// The files for the PEM texts of a certificate, which may not have come about, and of
/// its private key: the certificate first.
pub fn identity_files(cert: Result<String, rcgen::Error>, key: String) -> (files: Vec<TlsFile>)
    ensures
        files@ == seq![
            TlsFile { path: CERT_FILE, contents: cert },
            TlsFile { path: KEY_FILE, contents: Ok(key) },
        ],
{
    let mut files: Vec<TlsFile> = Vec::new();
    files.push(TlsFile { path: CERT_FILE, contents: cert });
    files.push(TlsFile { path: KEY_FILE, contents: Ok(key) });
    files
}

/// The files for a certificate and its private key. Signing the certificate draws on the
/// machine's randomness, and may fail with it.
fn tls_files(certificate: &rcgen::Certificate) -> (files: Vec<TlsFile>)
    requires
        simply_generated(*certificate),
        certificate_key(*certificate) is Some,
    ensures
        holds_identity(files@, certificate_names(*certificate)),
        files@[1].contents matches Ok(key) && pem_pkcs8_keys(key@) == Some(
            seq![certificate_key(*certificate)->0],
        ),
{
    let cert = certificate_pem(certificate);
    let key = private_key_pem(certificate);
    identity_files(cert, key)
}

/// The files for a certificate that may not have come about: there are files exactly
/// where there is a certificate.
fn generated_files(generated: Result<rcgen::Certificate, rcgen::Error>) -> (files: Result<
    Vec<TlsFile>,
    rcgen::Error,
>)
    requires
        generated matches Ok(c) ==> simply_generated(c) && certificate_key(c) is Some,
    ensures
        match generated {
            Ok(c) => {
                &&& files matches Ok(f)
                &&& holds_identity(f@, certificate_names(c))
                &&& f@[1].contents matches Ok(key) && pem_pkcs8_keys(key@) == Some(
                    seq![certificate_key(c)->0],
                )
            },
            Err(e) => files == Err::<Vec<TlsFile>, rcgen::Error>(e),
        },
{
    match generated {
        Ok(certificate) => Ok(tls_files(&certificate)),
        Err(e) => Err(e),
    }
}

/// Makes a certificate for the server, and gives the files to keep it in. The key pair
/// is drawn from the machine's randomness, and there are no files where that fails.
pub fn gentls() -> (files: Result<Vec<TlsFile>, rcgen::Error>)
    ensures
        files matches Ok(f) ==> holds_identity(f@, seq![SERVER_NAME@]),
{
    let mut names: Vec<String> = Vec::new();
    names.push(SERVER_NAME.to_string());
    proof {
        reveal_strlit("snp");
        assert(texts(names@) =~= seq![SERVER_NAME@]);
    }
    generated_files(self_signed(names))
}

/// What is made of the answer to a server name.
pub fn checked_server_name(
    parsed: Result<
        rustls::pki_types::ServerName<'static>,
        rustls::pki_types::InvalidDnsNameError,
    >,
) -> (name: Result<rustls::pki_types::ServerName<'static>, ClientError>)
    ensures
        match parsed {
            Ok(n) => name == Ok::<rustls::pki_types::ServerName<'static>, ClientError>(n),
            Err(_) => name == Err::<rustls::pki_types::ServerName<'static>, ClientError>(
                ClientError::InvalidServerName,
            ),
        },
{
    match parsed {
        Ok(n) => Ok(n),
        Err(_) => Err(ClientError::InvalidServerName),
    }
}

/// The name that the client checks the server's certificate for.
pub fn expected_server_name() -> (name: Result<
    rustls::pki_types::ServerName<'static>,
    ClientError,
>)
    ensures
        name matches Ok(n) && server_name_text(n) == SERVER_NAME@,
{
    proof {
        reveal_strlit("snp");
    }
    checked_server_name(parse_server_name(SERVER_NAME))
}

/// Files that were made for a server configure one, and a client of it: both PEM texts
/// can be read, there is a private key, and there is a certificate to trust.
pub proof fn lemma_generated_files_configure(
    files: Seq<TlsFile>,
    names: Seq<Seq<char>>,
    server: TlsConfig,
    client: TlsConfig,
)
    requires
        holds_identity(files, names),
        files[0].contents matches Ok(cert) && server.cert@ == cert@ && client.cert@ == cert@,
        server.key is Some,
        files[1].contents matches Ok(key) && server.key->0@ == key@,
    ensures
        server_pem_reads(server),
        server_key_present(server),
        client_root_present(client),
{
}

/// The files that are made for names are `cert.pem` and `key.pem`, in this order. The
/// second holds one private key; the first, where it could be signed, holds one
/// certificate, for these names and for the public key of that private key.
pub proof fn lemma_files_hold_an_identity(files: Seq<TlsFile>, names: Seq<Seq<char>>)
    requires
        holds_identity(files, names),
    ensures
        files.len() == 2,
        files[0].path@ == seq!['c', 'e', 'r', 't', '.', 'p', 'e', 'm'],
        files[1].path@ == seq!['k', 'e', 'y', '.', 'p', 'e', 'm'],
        files[1].contents is Ok,
        pem_pkcs8_keys(files[1].contents->Ok_0@) is Some,
        pem_pkcs8_keys(files[1].contents->Ok_0@)->0.len() == 1,
        files[0].contents matches Ok(cert) ==> {
            &&& pem_certificates(cert@) is Some
            &&& pem_certificates(cert@)->0.len() == 1
            &&& pem_subject(cert@).0 == names
            &&& pem_subject(cert@).1 == public_key_of(
                pem_pkcs8_keys(files[1].contents->Ok_0@)->0[0],
            )
        },
{
    reveal_strlit("cert.pem");
    reveal_strlit("key.pem");
    assert("cert.pem"@ =~= seq!['c', 'e', 'r', 't', '.', 'p', 'e', 'm']);
    assert("key.pem"@ =~= seq!['k', 'e', 'y', '.', 'p', 'e', 'm']);
}

/// The name that a certificate is made for, and that it is checked for, is `snp`; and a
/// list of texts is that of its strings, one for one and in order.
pub proof fn lemma_server_is_known_as(items: Seq<String>)
    ensures
        SERVER_NAME@ == seq!['s', 'n', 'p'],
        texts(items).len() == items.len(),
        forall|i: int| 0 <= i < items.len() ==> #[trigger] texts(items)[i] == items[i]@,
{
    reveal_strlit("snp");
    assert("snp"@ =~= seq!['s', 'n', 'p']);
}

} // verus!
