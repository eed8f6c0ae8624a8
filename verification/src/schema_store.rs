//! Naming of the local schema store: which keys are valid, where a key's file
//! lives under the store root, and where the default root is.

use vstd::prelude::*;

use crate::schema::{HostSchema, SchemaError};
use crate::text::{concat, split_once};

verus! {

use vstd::string::StringSliceAdditionalSpecFns;

broadcast use vstd::utf8::encode_utf8_decode_utf8;

#[derive(Debug)]
pub enum SchemaStoreError {
    NoDefaultDirectory,
    Io(String),
    Schema(SchemaError),
    InvalidKey(String),
    AlreadyExists(String),
    NotFound(String),
}

/// What std's `Path::join` makes of `base` and `tail`, as text.
pub uninterp spec fn joined_path(base: Seq<char>, tail: Seq<char>) -> Seq<char>;

/// std's `Path::join`: `tail` appended to `base` as a path component.
#[verifier::external_body]
fn join_path(base: &str, tail: &str) -> (res: String)
    ensures
        res@ == joined_path(base@, tail@),
{
    std::path::Path::new(base).join(tail).to_string_lossy().into_owned()
}

/// A byte allowed in a key segment: ASCII letters and digits, `-`, `_`, `.`.
pub open spec fn segment_byte(b: u8) -> bool {
    (0x30 <= b <= 0x39) || (0x41 <= b <= 0x5a) || (0x61 <= b <= 0x7a) || b == 0x2d || b == 0x5f || b == 0x2e
}

/// A valid directory or file-stem name in the store: non-empty, not `.` or
/// `..`, and made of segment bytes only.
pub open spec fn valid_segment_bytes(s: Seq<u8>) -> bool {
    &&& s.len() > 0
    &&& s != seq![0x2eu8]
    &&& s != seq![0x2eu8, 0x2eu8]
    &&& forall|i: int| 0 <= i < s.len() ==> segment_byte(#[trigger] s[i])
}

/// Whether `value` can name a repository or revision in the store.
pub fn valid_segment(value: &str) -> (res: bool)
    ensures
        res == valid_segment_bytes(value.spec_bytes()),
{
    let bytes = value.as_bytes();
    if bytes.len() == 0 {
        return false;
    }
    if bytes.len() == 1 && bytes[0] == 0x2e {
        assert(bytes@ == seq![0x2eu8]);
        return false;
    }
    if bytes.len() == 2 && bytes[0] == 0x2e && bytes[1] == 0x2e {
        assert(bytes@ == seq![0x2eu8, 0x2eu8]);
        return false;
    }
    let mut i: usize = 0;
    while i < bytes.len()
        invariant
            i <= bytes@.len(),
            bytes@ == value.spec_bytes(),
            forall|k: int| 0 <= k < i ==> segment_byte(#[trigger] bytes@[k]),
        decreases bytes@.len() - i,
    {
        let b = bytes[i];
        let ok = (0x30 <= b && b <= 0x39) || (0x41 <= b && b <= 0x5a) || (0x61 <= b && b <= 0x7a) || b == 0x2d
            || b == 0x5f || b == 0x2e;
        if !ok {
            assert(!segment_byte(bytes@[i as int]));
            return false;
        }
        i = i + 1;
    }
    proof {
        if bytes@ == seq![0x2eu8] {
            assert(bytes@.len() == 1);
        }
        if bytes@ == seq![0x2eu8, 0x2eu8] {
            assert(bytes@.len() == 2 && bytes@[0] == 0x2e && bytes@[1] == 0x2e);
        }
    }
    true
}

/// `value` as an owned segment, or `InvalidKey(value)`.
pub fn sanitize_segment(value: &str) -> (res: Result<String, SchemaStoreError>)
    ensures
        valid_segment_bytes(value.spec_bytes()) ==> (res matches Ok(s) && s@ == value@),
        !valid_segment_bytes(value.spec_bytes()) ==> (res matches Err(SchemaStoreError::InvalidKey(k)) && k@
            == value@),
{
    if valid_segment(value) {
        return Ok(value.to_owned());
    }
    Err(SchemaStoreError::InvalidKey(value.to_owned()))
}

/// The key a schema is stored under: `<repository>/<git sha>`.
pub fn schema_store_key(schema: &HostSchema) -> (res: Result<String, SchemaStoreError>)
    ensures
        match res {
            Ok(key) => valid_segment_bytes(vstd::utf8::encode_utf8(schema.source.repository@)) && valid_segment_bytes(vstd::utf8::encode_utf8(schema.source.git_sha@)) && key@ == schema.source.repository@ + "/"@ + schema.source.git_sha@,
            Err(SchemaStoreError::InvalidKey(k)) => if !valid_segment_bytes(vstd::utf8::encode_utf8(schema.source.repository@)) {
                k@ == schema.source.repository@
            } else {
                !valid_segment_bytes(vstd::utf8::encode_utf8(schema.source.git_sha@)) && k@ == schema.source.git_sha@
            },
            Err(_) => false,
        },
{
    let repository = sanitize_segment(schema.source.repository.as_str())?;
    let revision = sanitize_segment(schema.source.git_sha.as_str())?;
    let with_slash = concat(repository.as_str(), "/");
    Ok(concat(with_slash.as_str(), revision.as_str()))
}

/// The key split at its first `/` into repository and revision, both valid.
pub open spec fn key_parts(key: Seq<u8>) -> Option<(Seq<u8>, Seq<u8>)> {
    if exists|i: int| crate::text::first_at(key, 0x2fu8, i) {
        let i = choose|i: int| crate::text::first_at(key, 0x2fu8, i);
        if valid_segment_bytes(key.take(i)) && valid_segment_bytes(key.skip(i + 1)) {
            Some((key.take(i), key.skip(i + 1)))
        } else {
            None
        }
    } else {
        None
    }
}

/// A local directory of imported Host schemas, one file per key.
#[derive(Debug, Clone)]
pub struct SchemaStore {
    root: String,
}

impl View for SchemaStore {
    type V = Seq<char>;

    /// The store's root directory.
    closed spec fn view(&self) -> Seq<char> {
        self.root@
    }
}

impl SchemaStore {
    pub fn new(root: &str) -> (res: Self)
        ensures
            res@ == root@,
    {
        SchemaStore { root: root.to_owned() }
    }

    /// The store under the per-user data directory of the freedesktop layout:
    /// `$XDG_DATA_HOME/nmixx-motor-studio/schemas`, else
    /// `$HOME/.local/share/nmixx-motor-studio/schemas`; the caller passes the
    /// two variables as read from the environment.
    pub fn default(xdg_data_home: Option<&str>, home: Option<&str>) -> (res: Result<Self, SchemaStoreError>)
        ensures
            match (xdg_data_home, home) {
                (Some(root), _) => res matches Ok(s) && s@ == joined_path(
                    joined_path(root@, "nmixx-motor-studio"@),
                    "schemas"@,
                ),
                (None, Some(home)) => res matches Ok(s) && s@ == joined_path(
                    joined_path(joined_path(joined_path(home@, ".local"@), "share"@), "nmixx-motor-studio"@),
                    "schemas"@,
                ),
                (None, None) => res matches Err(SchemaStoreError::NoDefaultDirectory),
            },
    {
        match (xdg_data_home, home) {
            (Some(root), _) => {
                let app = join_path(root, "nmixx-motor-studio");
                Ok(SchemaStore { root: join_path(app.as_str(), "schemas") })
            },
            (None, Some(home)) => {
                let local = join_path(home, ".local");
                let share = join_path(local.as_str(), "share");
                let app = join_path(share.as_str(), "nmixx-motor-studio");
                Ok(SchemaStore { root: join_path(app.as_str(), "schemas") })
            },
            (None, None) => Err(SchemaStoreError::NoDefaultDirectory),
        }
    }

    /// The store under the per-user local application data of Windows:
    /// `%LOCALAPPDATA%\NMIXX Motor Studio\schemas`; the caller passes the
    /// variable as read from the environment.
    pub fn default_windows(local_app_data: Option<&str>) -> (res: Result<Self, SchemaStoreError>)
        ensures
            match local_app_data {
                Some(root) => res matches Ok(s) && s@ == joined_path(
                    joined_path(root@, "NMIXX Motor Studio"@),
                    "schemas"@,
                ),
                None => res matches Err(SchemaStoreError::NoDefaultDirectory),
            },
    {
        match local_app_data {
            Some(root) => {
                let app = join_path(root, "NMIXX Motor Studio");
                Ok(SchemaStore { root: join_path(app.as_str(), "schemas") })
            },
            None => Err(SchemaStoreError::NoDefaultDirectory),
        }
    }

    /// The store under the per-user application support directory of macOS:
    /// `$HOME/Library/Application Support/NMIXX Motor Studio/schemas`; the
    /// caller passes the variable as read from the environment.
    pub fn default_macos(home: Option<&str>) -> (res: Result<Self, SchemaStoreError>)
        ensures
            match home {
                Some(home) => res matches Ok(s) && s@ == joined_path(
                    joined_path(
                        joined_path(joined_path(home@, "Library"@), "Application Support"@),
                        "NMIXX Motor Studio"@,
                    ),
                    "schemas"@,
                ),
                None => res matches Err(SchemaStoreError::NoDefaultDirectory),
            },
    {
        match home {
            Some(home) => {
                let library = join_path(home, "Library");
                let support = join_path(library.as_str(), "Application Support");
                let app = join_path(support.as_str(), "NMIXX Motor Studio");
                Ok(SchemaStore { root: join_path(app.as_str(), "schemas") })
            },
            None => Err(SchemaStoreError::NoDefaultDirectory),
        }
    }

    pub fn root(&self) -> (res: &str)
        ensures
            res@ == self@,
    {
        self.root.as_str()
    }

    /// The file that holds the schema stored under `key`:
    /// `<root>/<repository>/<revision>.toml`. A key is `<repository>/<revision>`
    /// with two valid segments; anything else is `InvalidKey(key)`.
    pub fn path_for_key(&self, key: &str) -> (res: Result<String, SchemaStoreError>)
        ensures
            match key_parts(key.spec_bytes()) {
                Some((repository, revision)) => res matches Ok(path) && path@ == joined_path(
                    joined_path(self@, vstd::utf8::decode_utf8(repository)),
                    vstd::utf8::decode_utf8(revision) + ".toml"@,
                ),
                None => res matches Err(SchemaStoreError::InvalidKey(k)) && k@ == key@,
            },
    {
        let (repository, revision) = match split_once(key, 0x2f) {
            Some(parts) => parts,
            None => {
                return Err(SchemaStoreError::InvalidKey(key.to_owned()));
            },
        };
        proof {
            let i = choose|i: int|
                #![trigger crate::text::first_at(key.spec_bytes(), 0x2fu8, i)]
                crate::text::first_at(key.spec_bytes(), 0x2fu8, i) && repository.spec_bytes() == key.spec_bytes().take(
                    i,
                ) && revision.spec_bytes() == key.spec_bytes().skip(i + 1);
            let k = choose|k: int| crate::text::first_at(key.spec_bytes(), 0x2fu8, k);
            assert(i == k) by {
                if i < k {
                    assert(key.spec_bytes()[i] != 0x2fu8);
                } else if k < i {
                    assert(key.spec_bytes()[k] != 0x2fu8);
                }
            }
            assert(vstd::utf8::decode_utf8(vstd::utf8::encode_utf8(repository@)) == repository@);
            assert(vstd::utf8::decode_utf8(vstd::utf8::encode_utf8(revision@)) == revision@);
        }
        if !valid_segment(repository) || !valid_segment(revision) {
            return Err(SchemaStoreError::InvalidKey(key.to_owned()));
        }
        let directory = join_path(self.root.as_str(), repository);
        let file = concat(revision, ".toml");
        Ok(join_path(directory.as_str(), file.as_str()))
    }
}

} // verus!
