//! The credential manager: checks on the credential files, the metadata
//! file's path, and the identity that a saved credential reloads as.
use vstd::prelude::*;
use crate::text::copy_str;

verus! {

/// What the file system says of one credential file.
#[derive(PartialEq, Eq, Structural, Debug, Clone, Copy)]
pub enum FileStat {
    /// It cannot be opened.
    Missing,
    /// It opens; whether it is a directory, and its size in bytes.
    Present { is_dir: bool, len: u64 },
}

/// The three files of a credential.
#[derive(PartialEq, Eq, Structural, Debug, Clone, Copy)]
pub enum CredentialFile {
    Certificate,
    PrivateKey,
    Ca,
}

/// Why a credential's files do not pass the check.
#[derive(PartialEq, Eq, Structural, Debug, Clone, Copy)]
pub enum VerifyError {
    MissingFile(CredentialFile),
    IsDirectory(CredentialFile),
    EmptyFile(CredentialFile),
}

/// The check of one file.
pub open spec fn file_check(f: FileStat, which: CredentialFile) -> Result<(), VerifyError> {
    match f {
        FileStat::Missing => Err(VerifyError::MissingFile(which)),
        FileStat::Present { is_dir, len } => {
            if is_dir {
                Err(VerifyError::IsDirectory(which))
            } else if len == 0 {
                Err(VerifyError::EmptyFile(which))
            } else {
                Ok(())
            }
        },
    }
}

/// The check of a credential: certificate, private key and CA in that order,
/// the first failure reported.
pub open spec fn verify_outcome(cert: FileStat, private: FileStat, ca: FileStat) -> Result<
    (),
    VerifyError,
> {
    match file_check(cert, CredentialFile::Certificate) {
        Err(e) => Err(e),
        Ok(_) => match file_check(private, CredentialFile::PrivateKey) {
            Err(e) => Err(e),
            Ok(_) => file_check(ca, CredentialFile::Ca),
        },
    }
}

fn check_file(f: FileStat, which: CredentialFile) -> (r: Result<(), VerifyError>)
    ensures
        r == file_check(f, which),
{
    match f {
        FileStat::Missing => Err(VerifyError::MissingFile(which)),
        FileStat::Present { is_dir, len } => {
            if is_dir {
                Err(VerifyError::IsDirectory(which))
            } else if len == 0 {
                Err(VerifyError::EmptyFile(which))
            } else {
                Ok(())
            }
        },
    }
}

/// Checks that the certificate, private key and CA files each exist, are
/// not directories and are not empty.
pub fn verify_credential_files(cert: FileStat, private: FileStat, ca: FileStat) -> (r: Result<
    (),
    VerifyError,
>)
    ensures
        r == verify_outcome(cert, private, ca),
{
    check_file(cert, CredentialFile::Certificate)?;
    check_file(private, CredentialFile::PrivateKey)?;
    check_file(ca, CredentialFile::Ca)
}

/// Checking the same files twice gives the same answer: the outcome depends
/// on what the file system says of the three files and on nothing else.
pub proof fn lemma_verify_repeatable(
    cert: FileStat,
    private: FileStat,
    ca: FileStat,
    cert2: FileStat,
    private2: FileStat,
    ca2: FileStat,
)
    requires
        cert == cert2,
        private == private2,
        ca == ca2,
    ensures
        verify_outcome(cert, private, ca) == verify_outcome(cert2, private2, ca2),
{
}

/// `s` with each occurrence of `from`, taken left to right without overlap,
/// replaced by `to`.
pub open spec fn replace_all(s: Seq<char>, from: Seq<char>, to: Seq<char>) -> Seq<char>
    recommends
        from.len() > 0,
    decreases s.len(),
{
    if s.len() == 0 || from.len() == 0 {
        s
    } else if from.len() <= s.len() && s.subrange(0, from.len() as int) == from {
        to + replace_all(s.subrange(from.len() as int, s.len() as int), from, to)
    } else {
        seq![s[0]] + replace_all(s.subrange(1, s.len() as int), from, to)
    }
}

/// The metadata file that sits beside a certificate: `.pem` becomes `.info`.
pub open spec fn info_path_of(cert_path: Seq<char>) -> Seq<char> {
    replace_all(cert_path, ".pem"@, ".info"@)
}

/// The path of the metadata file beside the certificate at `cert_path`.
pub fn info_path(cert_path: &str) -> (r: String)
    ensures
        r@ == info_path_of(cert_path@),
{
    let n = cert_path.unicode_len();
    proof {
        reveal_strlit(".pem");
        reveal_strlit(".info");
    }
    let mut r = String::new();
    let mut i: usize = 0;
    assert(cert_path@.subrange(0, n as int) =~= cert_path@);
    while i < n
        invariant
            n == cert_path@.len(),
            i <= n,
            r@ + info_path_of(cert_path@.subrange(i as int, n as int)) == info_path_of(cert_path@),
        decreases n - i,
    {
        let ghost rest = cert_path@.subrange(i as int, n as int);
        let ghost r0 = r@;
        let hit = if n - i >= 4 {
            let c0 = cert_path.get_char(i);
            let c1 = cert_path.get_char(i + 1);
            let c2 = cert_path.get_char(i + 2);
            let c3 = cert_path.get_char(i + 3);
            let h = c0 == '.' && c1 == 'p' && c2 == 'e' && c3 == 'm';
            proof {
                reveal_strlit(".pem");
                let w = rest.subrange(0, 4);
                assert(w =~= seq![c0, c1, c2, c3]);
                assert(".pem"@ =~= seq!['.', 'p', 'e', 'm']);
                if h {
                    assert(w =~= ".pem"@);
                }
                if w == ".pem"@ {
                    assert(w[0] == '.' && w[1] == 'p' && w[2] == 'e' && w[3] == 'm');
                }
            }
            h
        } else {
            false
        };
        assert(hit == (rest.len() >= 4 && rest.subrange(0, 4) == ".pem"@));
        if hit {
            r.append(".info");
            proof {
                reveal_strlit(".info");
                assert(rest.subrange(4, rest.len() as int) =~= cert_path@.subrange(i + 4, n as int));
                assert(r@ + info_path_of(cert_path@.subrange(i + 4, n as int)) =~= r0
                    + info_path_of(rest));
            }
            i = i + 4;
        } else {
            let c = cert_path.get_char(i);
            r.push(c);
            proof {
                assert(rest.subrange(1, rest.len() as int) =~= cert_path@.subrange(i + 1, n as int));
                reveal_strlit(".pem");
                let tail = cert_path@.subrange(i + 1, n as int);
                assert(".pem"@.len() == 4);
                assert(c == rest[0]);
                assert(info_path_of(rest) == seq![c] + info_path_of(tail));
                assert(r@ + info_path_of(tail) =~= r0 + (seq![c] + info_path_of(tail)));
            }
            i = i + 1;
        }
    }
    assert(cert_path@.subrange(n as int, n as int) =~= Seq::<char>::empty());
    assert(r@ + Seq::<char>::empty() =~= r@);
    r
}

/// A point in time in UTC: seconds since the epoch and the nanoseconds past
/// that second.
#[derive(PartialEq, Eq, Structural, Debug, Clone, Copy)]
pub struct UtcTime {
    pub secs: i64,
    pub nanos: u32,
}

/// The certificate material that the broker issues, with the time it was
/// saved on this device.
pub struct AwsIotKeyCertificate {
    pub certificate_id: String,
    pub certificate_pem: String,
    pub private_key: String,
    pub certificate_ownership_token: String,
    pub issue_time: Option<UtcTime>,
}

/// Why a saved credential cannot be reloaded.
#[derive(PartialEq, Eq, Structural, Debug, Clone, Copy)]
pub enum CredentialError {
    /// The metadata file cannot be read.
    NotFound,
    /// The metadata file does not hold a saved credential.
    Malformed,
}

/// The identity that a credential record reloads as.
pub open spec fn reload_outcome(record: Result<AwsIotKeyCertificate, CredentialError>) -> Result<
    (Seq<char>, UtcTime),
    CredentialError,
> {
    match record {
        Err(e) => Err(e),
        Ok(c) => match c.issue_time {
            Some(t) => Ok((c.certificate_id@, t)),
            None => Err(CredentialError::Malformed),
        },
    }
}

impl AwsIotKeyCertificate {
    /// Stamps the credential with the time `now` at which it is saved, and
    /// returns the identity that is saved: the certificate id and that time.
    pub fn stamp_issue_time(&mut self, now: UtcTime) -> (r: (String, UtcTime))
        ensures
            final(self).issue_time == Some(now),
            final(self).certificate_id@ == old(self).certificate_id@,
            final(self).certificate_pem@ == old(self).certificate_pem@,
            final(self).private_key@ == old(self).private_key@,
            final(self).certificate_ownership_token@ == old(self).certificate_ownership_token@,
            r.0@ == old(self).certificate_id@,
            r.1 == now,
    {
        self.issue_time = Some(now);
        (copy_str(self.certificate_id.as_str()), now)
    }

    /// The cached identity of a credential, from what was read and decoded
    /// from its metadata file: the certificate id and the time it was saved.
    pub fn reload(record: Result<AwsIotKeyCertificate, CredentialError>) -> (r: Result<
        (String, UtcTime),
        CredentialError,
    >)
        ensures
            match r {
                Ok((id, t)) => reload_outcome(record) == Ok::<
                    (Seq<char>, UtcTime),
                    CredentialError,
                >((id@, t)),
                Err(e) => reload_outcome(record) == Err::<(Seq<char>, UtcTime), CredentialError>(e),
            },
    {
        match record {
            Err(e) => Err(e),
            Ok(c) => match c.issue_time {
                Some(t) => Ok((c.certificate_id, t)),
                None => Err(CredentialError::Malformed),
            },
        }
    }
}

/// Saving a credential and reloading what was saved gives back the same
/// certificate id and issue time.
pub proof fn lemma_save_reload(
    before: AwsIotKeyCertificate,
    saved: AwsIotKeyCertificate,
    now: UtcTime,
)
    requires
        saved.issue_time == Some(now),
        saved.certificate_id@ == before.certificate_id@,
    ensures
        reload_outcome(Ok(saved)) == Ok::<(Seq<char>, UtcTime), CredentialError>(
            (before.certificate_id@, now),
        ),
{
}

} // verus!
