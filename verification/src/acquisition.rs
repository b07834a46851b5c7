//! Wallet acquisition: the decision, taken once at session start, between
//! loading an existing wallet and creating a new one, together with the
//! transport decoding of the unlocking key and the resolution of the
//! storage and history paths. The wallet's cryptography and its file format
//! belong to the external wallet collaborator; only its transport text
//! encoding of keys is called here.

use vstd::prelude::*;
use vstd::string::StringExecFns;

verus! {

/// How the unlocking key is obtained on the load branch.
#[derive(Debug, Clone, Copy, PartialEq, Eq)]
pub enum KeySource {
    /// The key was supplied by configuration.
    Supplied,
    /// The operator is prompted for the key.
    Prompted,
}

/// Which way a usable wallet handle is obtained.
#[derive(Debug, Clone, Copy, PartialEq, Eq)]
pub enum AcquisitionPlan {
    /// The storage path exists: decode a key from `source` and open.
    Load { source: KeySource },
    /// The storage path does not exist: create a wallet with a random key.
    Create,
}

/// A failure that ends the session before it begins.
#[derive(Debug, Clone, PartialEq, Eq)]
pub enum StartupError {
    /// The supplied key text is not valid transport encoding; diagnosed
    /// before any wallet I/O is attempted.
    InvalidKeyEncoding { message: String },
    /// A default path was needed and there is no home directory.
    MissingHomeDirectory,
}

/// The mathematical shape of a [`StartupError`].
pub ghost enum StartupErrorView {
    InvalidKeyEncoding { message: Seq<char> },
    MissingHomeDirectory,
}

impl View for StartupError {
    type V = StartupErrorView;

    open spec fn view(&self) -> StartupErrorView {
        match self {
            StartupError::InvalidKeyEncoding { message } => StartupErrorView::InvalidKeyEncoding {
                message: message@,
            },
            StartupError::MissingHomeDirectory => StartupErrorView::MissingHomeDirectory,
        }
    }
}

/// The acquisition branch taken for a given world: the presence of the
/// storage path is the sole discriminator, and on the load branch the key
/// comes from configuration when supplied, else from a prompt.
pub open spec fn spec_plan(storage_exists: bool, key_supplied: bool) -> AcquisitionPlan {
    if storage_exists {
        AcquisitionPlan::Load {
            source: if key_supplied {
                KeySource::Supplied
            } else {
                KeySource::Prompted
            },
        }
    } else {
        AcquisitionPlan::Create
    }
}

/// Decides the acquisition branch from the storage path's presence and
/// whether a key was supplied by configuration.
pub fn plan_acquisition(storage_exists: bool, key_supplied: bool) -> (p: AcquisitionPlan)
    ensures
        p == spec_plan(storage_exists, key_supplied),
{
    if storage_exists {
        if key_supplied {
            AcquisitionPlan::Load { source: KeySource::Supplied }
        } else {
            AcquisitionPlan::Load { source: KeySource::Prompted }
        }
    } else {
        AcquisitionPlan::Create
    }
}

/// A storage path that exists always takes the load branch and never a
/// create; one that does not exist always takes the create branch and
/// never attempts an open. The plan holds exactly one of the two, and on
/// the load branch the key comes from configuration exactly when one was
/// supplied.
pub proof fn lemma_branch_by_existence(storage_exists: bool, key_supplied: bool)
    ensures
        spec_plan(storage_exists, key_supplied) is Load <==> storage_exists,
        spec_plan(storage_exists, key_supplied) is Create <==> !storage_exists,
        storage_exists ==> (spec_plan(storage_exists, key_supplied) matches AcquisitionPlan::Load {
            source,
        } && (source == KeySource::Supplied <==> key_supplied)),
{
}

/// What base64 decoding yields on `s`: the decoded bytes, or the textual
/// decode error. Standard alphabet with padding; the result depends on the
/// characters alone.
pub uninterp spec fn b64_decode(s: Seq<char>) -> Result<Seq<u8>, Seq<char>>;

/// The base64 text that encodes `b` (standard alphabet, with padding).
pub uninterp spec fn b64_encode(b: Seq<u8>) -> Seq<char>;

/// Relies on `base64::decode` (standard alphabet, padded); the error text
/// is the decode error's display.
#[verifier::external_body]
fn decode_base64(s: &str) -> (r: Result<Vec<u8>, String>)
    ensures
        r is Ok <==> b64_decode(s@) is Ok,
        r matches Ok(b) ==> b@ == b64_decode(s@)->Ok_0,
        r matches Err(e) ==> e@ == b64_decode(s@)->Err_0,
{
    match base64::decode(s) {
        Ok(b) => Ok(b),
        Err(e) => Err(format!("{}", e)),
    }
}

/// Relies on `base64::encode` (standard alphabet, padded).
#[verifier::external_body]
fn encode_base64(b: &Vec<u8>) -> (r: String)
    ensures
        r@ == b64_encode(b@),
{
    base64::encode(b)
}

/// Decodes the unlocking key from its transport text. Undecodable key text
/// is fatal with a diagnosed error: no open is attempted for it.
pub fn decode_key(text: &str) -> (r: Result<Vec<u8>, StartupError>)
    ensures
        r is Ok <==> b64_decode(text@) is Ok,
        r matches Ok(k) ==> k@ == b64_decode(text@)->Ok_0,
        r matches Err(e) ==> e@ == (StartupErrorView::InvalidKeyEncoding {
            message: "Key is in invalid format: "@ + b64_decode(text@)->Err_0,
        }),
{
    match decode_base64(text) {
        Ok(k) => Ok(k),
        Err(e) => {
            let mut msg = "Key is in invalid format: ".to_owned();
            msg.append(e.as_str());
            Err(StartupError::InvalidKeyEncoding { message: msg })
        },
    }
}

/// The two lines shown once a wallet has been created: the new key in its
/// transport encoding, and the instruction to record it, since it is not
/// recoverable otherwise.
pub fn creation_notice(key: &Vec<u8>) -> (r: (String, String))
    ensures
        r.0@ == "Auth key: "@ + b64_encode(key@),
        r.1@ == "Save it to be able to access your wallet"@,
{
    let encoded = encode_base64(key);
    let mut line = "Auth key: ".to_owned();
    line.append(encoded.as_str());
    (line, "Save it to be able to access your wallet".to_owned())
}

/// The wallet storage path: the explicit configuration when given, else the
/// wallet file under the home directory; needing a default without a home
/// directory is fatal.
pub fn resolve_storage_path(explicit: Option<String>, home: Option<String>) -> (r: Result<
    String,
    StartupError,
>)
    ensures
        explicit matches Some(p) ==> r matches Ok(q) && q@ == p@,
        explicit is None ==> (home matches Some(h) ==> (r matches Ok(q) && q@ == h@
            + "/.wallet.json"@)),
        explicit is None && home is None ==> (r matches Err(e) && e@
            == StartupErrorView::MissingHomeDirectory),
{
    match explicit {
        Some(p) => Ok(p),
        None => match home {
            Some(h) => {
                let mut q = h;
                q.append("/.wallet.json");
                Ok(q)
            },
            None => Err(StartupError::MissingHomeDirectory),
        },
    }
}

/// The prompt-history path: the explicit configuration when given, else the
/// history file under the home directory; with neither, history is skipped,
/// which is a best-effort concern and never fatal.
pub fn resolve_history_path(explicit: Option<String>, home: Option<String>) -> (r: Option<String>)
    ensures
        explicit matches Some(p) ==> r matches Some(q) && q@ == p@,
        explicit is None ==> (home matches Some(h) ==> (r matches Some(q) && q@ == h@
            + "/.arc_cliwallet_history"@)),
        explicit is None && home is None ==> r is None,
{
    match explicit {
        Some(p) => Some(p),
        None => match home {
            Some(h) => {
                let mut q = h;
                q.append("/.arc_cliwallet_history");
                Some(q)
            },
            None => None,
        },
    }
}

} // verus!
