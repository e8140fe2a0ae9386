//! Choosing, locating, checking and fetching the proof parameter files.

use vstd::prelude::*;
use crate::paths::{join, lemma_without_leading_slashes, path_join, strip_leading_slashes, without_leading_slashes};
use crate::text::{hex_bytes, hex_prefix, parse_u64, parsed_u64, str_eq};

verus! {

/// The environment variable naming the parameter directory.
pub const DIR_ENV: &'static str = "FIL_PROOFS_PARAMETER_CACHE";

/// The parameter directory used when the environment names none.
pub const PARAM_DIR: &'static str = "/var/tmp/filecoin-proof-parameters";

/// The environment variable naming the IPFS gateway.
pub const GATEWAY_ENV: &'static str = "IPFS_GATEWAY";

/// The IPFS gateway used when the environment names none.
pub const GATEWAY: &'static str = "https://proofs.filecoin.io/ipfs/";

/// The parameter directory: the environment's value unless it is absent or empty.
pub fn get_param_dir(env_value: Option<String>) -> (d: String)
    ensures
        d@ == (match env_value {
            Some(v) => if v@.len() > 0 { v@ } else { PARAM_DIR@ },
            None => PARAM_DIR@,
        }),
{
    match env_value {
        Some(v) => {
            if v.unicode_len() == 0 {
                PARAM_DIR.to_owned()
            } else {
                v
            }
        },
        None => PARAM_DIR.to_owned(),
    }
}

/// The path of a file within the parameter directory: leading `/` of the file name are dropped,
/// so the path stays under the directory.
pub fn get_full_path_for_file(dir: &str, filename: &str) -> (p: String)
    ensures
        p@ == path_join(dir@, without_leading_slashes(filename@)),
        dir@.is_prefix_of(p@),
{
    let name = strip_leading_slashes(filename);
    proof { lemma_without_leading_slashes(filename@); }
    let p = join(dir, name);
    assert(dir@.is_prefix_of(p@)) by {
        assert(p@.subrange(0, dir@.len() as int) =~= dir@);
    }
    p
}

/// One file listed in a parameter map.
#[derive(Debug, Clone)]
pub struct ParamFile {
    pub name: String,
    /// The sector size the file is for.
    pub sector_size: u64,
    /// Whether the file name has the `params` extension.
    pub has_params_extension: bool,
}

/// Whether a listed file is dropped when selecting the files for `size`: only `params` files
/// for another sector size are dropped; verifying-key files are all kept.
pub open spec fn param_file_dropped(f: ParamFile, size: u64) -> bool {
    f.has_params_extension && f.sector_size != size
}

/// The names of the listed files kept for `size`, in order.
pub open spec fn selected_param_names(files: Seq<ParamFile>, size: u64) -> Seq<Seq<char>>
    decreases files.len(),
{
    if files.len() == 0 {
        Seq::empty()
    } else {
        let rest = selected_param_names(files.drop_last(), size);
        if param_file_dropped(files.last(), size) {
            rest
        } else {
            rest.push(files.last().name@)
        }
    }
}

/// The names of the listed files kept for sector size `size`, in order.
pub fn select_param_files(files: &Vec<ParamFile>, size: u64) -> (names: Vec<String>)
    ensures
        names@.map_values(|n: String| n@) == selected_param_names(files@, size),
{
    let mut names: Vec<String> = Vec::new();
    let mut i: usize = 0;
    while i < files.len()
        invariant
            i <= files@.len(),
            names@.map_values(|n: String| n@) == selected_param_names(files@.take(i as int), size),
        decreases files@.len() - i,
    {
        let f = &files[i];
        assert(files@.take(i + 1).drop_last() =~= files@.take(i as int));
        if !(f.has_params_extension && f.sector_size != size) {
            names.push(f.name.clone());
        }
        assert(names@.map_values(|n: String| n@) =~= selected_param_names(files@.take(i + 1), size));
        i = i + 1;
    }
    assert(files@.take(files@.len() as int) =~= files@);
    names
}

/// What to do with a parameter file that may already be on disk.
#[derive(Debug, Clone, Copy, PartialEq, Eq, Structural)]
pub enum FileCheck {
    /// The file is missing or could not be hashed: download it.
    Download,
    /// The file has the expected digest: keep it.
    UpToDate,
    /// The file has another digest: remove it, then download it.
    Replace,
}

/// Decides about a parameter file from whether it exists and, when it does, the digest
/// computed for it (`None` when hashing failed).
pub fn check_param_file(exists: bool, digest: Option<String>, expected: &str) -> (c: FileCheck)
    ensures
        c == (if !exists {
            FileCheck::Download
        } else {
            match digest {
                None => FileCheck::Download,
                Some(d) => if d@ == expected@ { FileCheck::UpToDate } else { FileCheck::Replace },
            }
        }),
{
    if !exists {
        return FileCheck::Download;
    }
    match digest {
        None => FileCheck::Download,
        Some(d) => {
            if str_eq(d.as_str(), expected) {
                FileCheck::UpToDate
            } else {
                FileCheck::Replace
            }
        },
    }
}

/// Checks a downloaded file's digest against the expected one.
pub fn verify_digest(calculated: &str, expected: &str) -> (r: Result<(), String>)
    ensures
        r is Ok <==> calculated@ == expected@,
        r matches Err(m) ==> m@ == "file has unexpected digest"@,
{
    if str_eq(calculated, expected) {
        Ok(())
    } else {
        Err(String::from_str("file has unexpected digest"))
    }
}

/// Texts joined with `sep` between consecutive ones.
pub open spec fn joined(items: Seq<Seq<char>>, sep: Seq<char>) -> Seq<char>
    decreases items.len(),
{
    if items.len() == 0 {
        Seq::empty()
    } else if items.len() == 1 {
        items[0]
    } else {
        joined(items.drop_last(), sep) + sep + items.last()
    }
}

/// The error reported when downloads failed: `None` when no message is given, else the
/// messages after a heading, separated by blank lines.
pub fn aggregate_errors(messages: &Vec<String>) -> (r: Option<String>)
    ensures
        messages@.len() == 0 <==> r is None,
        r matches Some(t) ==> t@ == "Aggregated errors:\n"@ + joined(messages@.map_values(|m: String| m@), "\n\n"@),
{
    if messages.len() == 0 {
        return None;
    }
    let ghost texts = messages@.map_values(|m: String| m@);
    let mut body = messages[0].clone();
    let mut i: usize = 1;
    assert(texts.take(1) =~= seq![texts[0]]);
    while i < messages.len()
        invariant
            1 <= i <= messages@.len(),
            texts == messages@.map_values(|m: String| m@),
            body@ == joined(texts.take(i as int), "\n\n"@),
        decreases messages@.len() - i,
    {
        body.append("\n\n");
        body.append(messages[i].as_str());
        assert(texts.take(i + 1).drop_last() =~= texts.take(i as int));
        i = i + 1;
    }
    assert(texts.take(messages@.len() as int) =~= texts);
    let mut t = String::from_str("Aggregated errors:\n");
    t.append(body.as_str());
    Some(t)
}

/// The URL of a parameter file: the gateway from the environment (when the variable is set),
/// else the default gateway, followed by the file's content id.
pub fn param_url(gateway_env: Option<String>, cid: &str) -> (u: String)
    ensures
        u@ == (match gateway_env {
            Some(g) => g@,
            None => GATEWAY@,
        }) + cid@,
{
    let mut u = match gateway_env {
        Some(g) => g,
        None => GATEWAY.to_owned(),
    };
    u.append(cid);
    u
}

/// The length announced by a response's `content-length` header, if it is a valid `u64`.
pub fn content_length(header: Option<String>) -> (r: Result<u64, String>)
    ensures
        r matches Ok(n) ==> header matches Some(h) && parsed_u64(h@) == Some(n),
        r is Err <==> (match header {
            Some(h) => parsed_u64(h@) is None,
            None => true,
        }),
        r matches Err(m) ==> m@ == "Couldn't retrieve content length"@,
{
    let parsed = match header {
        Some(h) => parse_u64(h.as_str()),
        None => None,
    };
    match parsed {
        Some(n) => Ok(n),
        None => Err(String::from_str("Couldn't retrieve content length")),
    }
}

/// Checks that the downloaded file has the announced length.
pub fn check_download_length(file_len: u64, content_len: u64) -> (r: Result<(), String>)
    ensures
        r is Ok <==> file_len == content_len,
        r matches Err(m) ==> m@ == "Condition failed: `file_metadata.len() == content_len`"@,
{
    if file_len == content_len {
        Ok(())
    } else {
        Err(String::from_str("Condition failed: `file_metadata.len() == content_len`"))
    }
}

/// Declares the BLAKE2b hashing state of `blake2b_simd` to the verifier; it stays opaque.
#[verifier::external_type_specification]
#[verifier::external_body]
pub struct ExBlake2bState(blake2b_simd::State);

/// The bytes a BLAKE2b state has absorbed since it was created.
pub uninterp spec fn blake2b_absorbed(st: blake2b_simd::State) -> Seq<u8>;

/// The default (64-byte) BLAKE2b hash of some bytes.
pub uninterp spec fn blake2b_hash(data: Seq<u8>) -> Seq<u8>;

/// A fresh hashing state (`blake2b_simd::State::new`, default parameters). Claimed: it has
/// absorbed nothing.
#[verifier::external_body]
fn blake2b_state_new() -> (st: blake2b_simd::State)
    ensures
        blake2b_absorbed(st) == Seq::<u8>::empty(),
{
    blake2b_simd::State::new()
}

/// Feeds bytes to a hashing state (`blake2b_simd::State::update`). Claimed: they are absorbed
/// after what was absorbed before.
#[verifier::external_body]
fn blake2b_state_update(st: &mut blake2b_simd::State, data: &[u8])
    ensures
        blake2b_absorbed(*final(st)) == blake2b_absorbed(*old(st)) + data@,
{
    st.update(data);
}

/// The hash of what a state absorbed (`blake2b_simd::State::finalize`, as bytes). Claimed: it is
/// `blake2b_hash` of the absorbed bytes, 64 bytes long (the default hash length).
#[verifier::external_body]
fn blake2b_state_finalize(st: &blake2b_simd::State) -> (h: Vec<u8>)
    ensures
        h@ == blake2b_hash(blake2b_absorbed(*st)),
        h@.len() == 64,
{
    st.finalize().as_bytes().to_vec()
}

/// The digest recorded for a parameter file: the first 32 lower-case hexadecimal digits of the
/// BLAKE2b hash of its content.
pub open spec fn param_digest(content: Seq<u8>) -> Seq<char> {
    hex_bytes(blake2b_hash(content).take(16))
}

/// Computes the digest of a parameter file from its content, fed in chunks.
pub struct FileDigest {
    state: blake2b_simd::State,
}

impl FileDigest {
    /// What has been fed so far.
    pub closed spec fn content(&self) -> Seq<u8> {
        blake2b_absorbed(self.state)
    }

    pub fn new() -> (d: FileDigest)
        ensures
            d.content() == Seq::<u8>::empty(),
    {
        FileDigest { state: blake2b_state_new() }
    }

    /// Feeds the next chunk of the file.
    pub fn absorb(&mut self, chunk: &[u8])
        ensures
            final(self).content() == old(self).content() + chunk@,
    {
        blake2b_state_update(&mut self.state, chunk);
    }

    /// The digest of everything fed so far.
    pub fn finish(&self) -> (d: String)
        ensures
            d@ == param_digest(self.content()),
    {
        let h = blake2b_state_finalize(&self.state);
        hex_prefix(h.as_slice(), 16)
    }
}

/// The selection for `size` keeps exactly the names of the verifying-key files and of the
/// `params` files of that sector size: a name is selected iff a listed file of that name is not
/// a `params` file, or is one for `size`.
pub proof fn law_selection_keeps_keys_and_matching_params(files: Seq<ParamFile>, size: u64)
    ensures
        forall|n: Seq<char>| #[trigger] selected_param_names(files, size).contains(n) <==> exists|i: int|
            0 <= i < files.len() && (#[trigger] files[i]).name@ == n
                && (!files[i].has_params_extension || files[i].sector_size == size),
    decreases files.len(),
{
    if files.len() > 0 {
        let rest = files.drop_last();
        law_selection_keeps_keys_and_matching_params(rest, size);
        let f = files.last();
        assert forall|n: Seq<char>| #[trigger] selected_param_names(files, size).contains(n) <==> exists|i: int|
            0 <= i < files.len() && (#[trigger] files[i]).name@ == n
                && (!files[i].has_params_extension || files[i].sector_size == size) by {
            let sel = selected_param_names(rest, size);
            if selected_param_names(files, size).contains(n) {
                if sel.contains(n) {
                    let i = choose|i: int| 0 <= i < rest.len() && (#[trigger] rest[i]).name@ == n
                        && (!rest[i].has_params_extension || rest[i].sector_size == size);
                    assert(files[i] == rest[i]);
                } else {
                    assert(!(f.has_params_extension && f.sector_size != size));
                    assert(sel.push(f.name@)[sel.len() as int] == f.name@);
                    let k = choose|k: int| 0 <= k < sel.push(f.name@).len() && sel.push(f.name@)[k] == n;
                    assert(files[files.len() - 1] == f);
                }
            }
            if exists|i: int| 0 <= i < files.len() && (#[trigger] files[i]).name@ == n
                && (!files[i].has_params_extension || files[i].sector_size == size) {
                let i = choose|i: int| 0 <= i < files.len() && (#[trigger] files[i]).name@ == n
                    && (!files[i].has_params_extension || files[i].sector_size == size);
                if i < files.len() - 1 {
                    assert(rest[i] == files[i]);
                    assert(sel.contains(n));
                    if !param_file_dropped(f, size) {
                        let k = choose|k: int| 0 <= k < sel.len() && sel[k] == n;
                        assert(sel.push(f.name@)[k] == n);
                    }
                } else {
                    assert(sel.push(f.name@)[sel.len() as int] == n);
                }
            }
        }
    }
}

/// A `params` file for another sector size is never selected, when no other listed file has its
/// name.
pub proof fn law_other_size_params_never_selected(files: Seq<ParamFile>, size: u64, j: int)
    requires
        0 <= j < files.len(),
        files[j].has_params_extension,
        files[j].sector_size != size,
        forall|i: int| 0 <= i < files.len() && i != j ==> (#[trigger] files[i]).name@ != files[j].name@,
    ensures
        !selected_param_names(files, size).contains(files[j].name@),
{
    law_selection_keeps_keys_and_matching_params(files, size);
}

} // verus!
