//! The descriptors a statement is built from: the function kinds with their
//! shared options, the import sources, the ABI kinds, and the aggregate
//! lifecycle-hook set with its validation.

use vstd::prelude::*;
use vstd::utf8::{decode_utf8, valid_utf8};
use crate::encoding::{base64_decode, base64_decoded, utf8_decode};
use crate::errors::{BuildError, ErrSpec};
use crate::text::{chars_equal, chars_of, has_prefix};

verus! {

/// The calling convention a Wasm module's exports use.
#[derive(Copy, Clone, Debug, PartialEq, Eq, Structural)]
pub enum AbiType {
    Basic,
    Canonical,
}

/// The SQL keyword for each ABI kind.
pub open spec fn abi_sql(a: AbiType) -> Seq<char> {
    match a {
        AbiType::Basic => "BASIC"@,
        AbiType::Canonical => "CANONICAL"@,
    }
}

impl AbiType {
    /// The SQL keyword naming this ABI kind.
    pub fn sql_text(&self) -> (r: &'static str)
        ensures
            r@ == abi_sql(*self),
    {
        match self {
            AbiType::Basic => "BASIC",
            AbiType::Canonical => "CANONICAL",
        }
    }
}

/// One imported artifact: inline base64 text, the bytes of a local file
/// (read by the caller), or a remote URL in its string form.
#[derive(Debug)]
pub enum ImportSource {
    Base64(String),
    Bytes(Vec<u8>),
    Url(String),
}

/// Under this byte-count bound the base64 encoding of a local source cannot
/// overflow a `usize` length.
pub open spec fn source_fits(s: ImportSource) -> bool {
    match s {
        ImportSource::Bytes(b) => b@.len() <= 0x4000_0000_0000_0000,
        _ => true,
    }
}

/// The text a source unpacks to for inspection, or the error: inline base64
/// is decoded and must be UTF-8, local bytes must be UTF-8, and a remote URL
/// is never fetched at this layer.
pub open spec fn spec_unpack(s: ImportSource) -> Result<Seq<char>, ErrSpec> {
    match s {
        ImportSource::Base64(t) => match base64_decoded(t@) {
            Some(bytes) => if valid_utf8(bytes) {
                Ok(decode_utf8(bytes))
            } else {
                Err(ErrSpec::DecodeError)
            },
            None => Err(ErrSpec::DecodeError),
        },
        ImportSource::Bytes(b) => if valid_utf8(b@) {
            Ok(decode_utf8(b@))
        } else {
            Err(ErrSpec::DecodeError)
        },
        ImportSource::Url(_) => Err(ErrSpec::UnsupportedOperation),
    }
}

/// A copy of the byte vector.
fn copy_bytes(b: &Vec<u8>) -> (r: Vec<u8>)
    ensures
        r@ == b@,
{
    let mut r: Vec<u8> = Vec::new();
    let mut i: usize = 0;
    while i < b.len()
        invariant
            i <= b@.len(),
            r@ == b@.subrange(0, i as int),
        decreases b@.len() - i,
    {
        r.push(b[i]);
        i = i + 1;
        proof {
            assert(r@ =~= b@.subrange(0, i as int));
        }
    }
    proof {
        assert(r@ =~= b@);
    }
    r
}

impl ImportSource {
    /// Unpacks the import source into readable text, for WIT inspection.
    pub fn unpack(&self) -> (r: Result<String, BuildError>)
        ensures
            match r {
                Ok(s) => spec_unpack(*self) == Ok::<Seq<char>, ErrSpec>(s@),
                Err(e) => spec_unpack(*self) == Err::<Seq<char>, ErrSpec>(e@),
            },
    {
        match self {
            ImportSource::Base64(t) => match base64_decode(t.as_str()) {
                Some(bytes) => match utf8_decode(bytes) {
                    Some(s) => Ok(s),
                    None => Err(BuildError::DecodeError),
                },
                None => Err(BuildError::DecodeError),
            },
            ImportSource::Bytes(b) => match utf8_decode(copy_bytes(b)) {
                Some(s) => Ok(s),
                None => Err(BuildError::DecodeError),
            },
            ImportSource::Url(_) => Err(BuildError::UnsupportedOperation),
        }
    }
}

/// How a raw command-line import string is to be interpreted.
#[derive(Copy, Clone, Debug, PartialEq, Eq, Structural)]
pub enum ImportKind {
    RemoteUrl,
    LocalFile,
    InlineBase64,
}

/// The sniffing rule for a raw import string: an HTTP(S)-looking prefix
/// means a URL, an existing local file means a path, and anything else is
/// treated as literal base64 text.
pub open spec fn spec_import_kind(s: Seq<char>, names_existing_file: bool) -> ImportKind {
    if s.len() >= 4 && s.subrange(0, 4) == "http"@ {
        ImportKind::RemoteUrl
    } else if names_existing_file {
        ImportKind::LocalFile
    } else {
        ImportKind::InlineBase64
    }
}

/// Classifies a raw import string.  Whether the string names an existing
/// local file is the caller's to determine: that check is file-system I/O.
pub fn classify_import(value: &str, names_existing_file: bool) -> (k: ImportKind)
    ensures
        k == spec_import_kind(value@, names_existing_file),
{
    let v = chars_of(value);
    let p = chars_of("http");
    proof {
        reveal_strlit("http");
    }
    if has_prefix(&v, &p) {
        ImportKind::RemoteUrl
    } else if names_existing_file {
        ImportKind::LocalFile
    } else {
        ImportKind::InlineBase64
    }
}

/// What to do with a connection specifier, decided by its URL scheme.
#[derive(Copy, Clone, Debug, PartialEq, Eq, Structural)]
pub enum ConnAction {
    /// `mysql`: use the URL as the connection string directly.
    UseDirectly,
    /// `file`: the referenced file's contents are the real connection URL,
    /// which must itself use the `mysql` scheme.
    ReadFromFile,
    /// Any other scheme is a fatal configuration error.
    Reject,
}

/// The decision rule for a connection specifier's scheme.
pub open spec fn spec_conn_action(scheme: Seq<char>) -> ConnAction {
    if scheme == "mysql"@ {
        ConnAction::UseDirectly
    } else if scheme == "file"@ {
        ConnAction::ReadFromFile
    } else {
        ConnAction::Reject
    }
}

/// Decides how a connection specifier is resolved, from its scheme.  The
/// file read, the URL parsing, and the database call are the caller's.
pub fn connection_action(scheme: &str) -> (r: ConnAction)
    ensures
        r == spec_conn_action(scheme@),
{
    let s = chars_of(scheme);
    let mysql_scheme = chars_of("mysql");
    let file_scheme = chars_of("file");
    if chars_equal(&s, &mysql_scheme) {
        ConnAction::UseDirectly
    } else if chars_equal(&s, &file_scheme) {
        ConnAction::ReadFromFile
    } else {
        ConnAction::Reject
    }
}

/// The options shared by all three function kinds.
#[derive(Debug)]
pub struct SharedFunctionOptions {
    /// Name of the function to create.
    pub name: String,
    /// Wasm import.
    pub wasm_source: ImportSource,
    /// Optional WIT import.
    pub wit_source: Option<ImportSource>,
    /// Force replacing an existing function.
    pub force: bool,
    /// ABI type.
    pub abi_type: AbiType,
}

/// The sources of `o` are small enough to base64-encode.
pub open spec fn shared_fits(o: SharedFunctionOptions) -> bool {
    &&& source_fits(o.wasm_source)
    &&& match o.wit_source {
        Some(w) => source_fits(w),
        None => true,
    }
}

/// Descriptor of a scalar user-defined function.
#[derive(Debug)]
pub struct UserFunction {
    pub shared: SharedFunctionOptions,
}

/// Descriptor of a table-valued function.
#[derive(Debug)]
pub struct TableFunction {
    pub shared: SharedFunctionOptions,
}

/// Descriptor of a user-defined aggregate function.
#[derive(Debug)]
pub struct AggregateFunction {
    pub shared: SharedFunctionOptions,
    /// Return type ~ `RETURNS`.
    pub return_type: String,
    /// Argument types; a name is generated for each unless there is exactly
    /// one.
    pub args: Vec<String>,
    /// State type ~ `WITH STATE`.
    pub state_type: String,
    /// Manually supplied lifecycle hooks, if any.
    pub aggregate_imports: Option<ManualAggregateImports>,
}

/// The selected function kind with its descriptor.
#[derive(Debug)]
pub enum Functions {
    Udf(UserFunction),
    Tvf(TableFunction),
    Udaf(AggregateFunction),
}

/// The aggregate lifecycle-hook set: each field names the Wasm export
/// implementing that role, when known.
#[derive(Debug)]
pub struct ManualAggregateImports {
    /// Initialization method ~ `INITIALIZE WITH`.
    pub init: Option<String>,
    /// Update method ~ `ITERATE WITH`.
    pub iter: Option<String>,
    /// Merge method ~ `MERGE WITH`.
    pub merge: Option<String>,
    /// Terminate method ~ `TERMINATE WITH`.
    pub terminate: Option<String>,
    /// Serialize method ~ `SERIALIZE WITH`.
    pub serialize: Option<String>,
    /// Deserialize method ~ `DESERIALIZE WITH`.
    pub deserialize: Option<String>,
}

/// Spec-level image of a hook set: the six optional method names.
pub ghost struct HookNames {
    pub init: Option<Seq<char>>,
    pub iter: Option<Seq<char>>,
    pub merge: Option<Seq<char>>,
    pub terminate: Option<Seq<char>>,
    pub serialize: Option<Seq<char>>,
    pub deserialize: Option<Seq<char>>,
}

/// The view of an optional string.
pub open spec fn opt_view(o: Option<String>) -> Option<Seq<char>> {
    match o {
        Some(s) => Some(s@),
        None => None,
    }
}

impl View for ManualAggregateImports {
    type V = HookNames;

    open spec fn view(&self) -> HookNames {
        HookNames {
            init: opt_view(self.init),
            iter: opt_view(self.iter),
            merge: opt_view(self.merge),
            terminate: opt_view(self.terminate),
            serialize: opt_view(self.serialize),
            deserialize: opt_view(self.deserialize),
        }
    }
}

/// The validity rule for a resolved hook set: the four required roles are
/// present, and serialize/deserialize come in a pair or not at all.  The
/// error names the first missing required role.
pub open spec fn spec_validate(h: HookNames) -> Result<(), ErrSpec> {
    if h.init is None {
        Err(ErrSpec::MissingRequiredHook("init"@))
    } else if h.iter is None {
        Err(ErrSpec::MissingRequiredHook("iterate"@))
    } else if h.merge is None {
        Err(ErrSpec::MissingRequiredHook("merge"@))
    } else if h.terminate is None {
        Err(ErrSpec::MissingRequiredHook("terminate"@))
    } else if (h.serialize is Some) != (h.deserialize is Some) {
        Err(ErrSpec::InconsistentHookPairing)
    } else {
        Ok(())
    }
}

/// A copy of an optional string.
fn clone_opt_string(o: &Option<String>) -> (r: Option<String>)
    ensures
        opt_view(r) == opt_view(*o),
{
    match o {
        Some(s) => Some(s.clone()),
        None => None,
    }
}

impl Clone for ManualAggregateImports {
    fn clone(&self) -> (r: Self)
        ensures
            r@ == self@,
    {
        ManualAggregateImports {
            init: clone_opt_string(&self.init),
            iter: clone_opt_string(&self.iter),
            merge: clone_opt_string(&self.merge),
            terminate: clone_opt_string(&self.terminate),
            serialize: clone_opt_string(&self.serialize),
            deserialize: clone_opt_string(&self.deserialize),
        }
    }
}

impl ManualAggregateImports {
    /// The hook set with every role absent.
    pub fn empty() -> (r: Self)
        ensures
            r@.init is None,
            r@.iter is None,
            r@.merge is None,
            r@.terminate is None,
            r@.serialize is None,
            r@.deserialize is None,
    {
        ManualAggregateImports {
            init: None,
            iter: None,
            merge: None,
            terminate: None,
            serialize: None,
            deserialize: None,
        }
    }

    /// Checks that the four required roles are present and that
    /// serialize/deserialize are paired.
    pub fn validate(&self) -> (r: Result<(), BuildError>)
        ensures
            match r {
                Ok(()) => spec_validate(self@) == Ok::<(), ErrSpec>(()),
                Err(e) => spec_validate(self@) == Err::<(), ErrSpec>(e@),
            },
    {
        if self.init.is_none() {
            return Err(BuildError::MissingRequiredHook(String::from_str("init")));
        }
        if self.iter.is_none() {
            return Err(BuildError::MissingRequiredHook(String::from_str("iterate")));
        }
        if self.merge.is_none() {
            return Err(BuildError::MissingRequiredHook(String::from_str("merge")));
        }
        if self.terminate.is_none() {
            return Err(BuildError::MissingRequiredHook(String::from_str("terminate")));
        }
        if self.serialize.is_some() != self.deserialize.is_some() {
            return Err(BuildError::InconsistentHookPairing);
        }
        Ok(())
    }
}

} // verus!
