//! The upload ingestion pipeline: a linear sequence of checks over
//! one request. The first failing check ends the request with its
//! failure envelope and leaves the committed store untouched; only
//! when every part of the batch passes every check is the whole batch
//! committed, in arrival order, and one public URL per part returned.
//!
//! A duplicate filename within one batch counts as a collision at the
//! later part's own check when override is off, so that the commit
//! never meets an existing destination it was not allowed to replace.

use vstd::prelude::*;
use vstd::string::StringExecFns;
use crate::params::UploadImgParam;
use crate::policy::PolicyTable;
use crate::response::ResponseCode;
use crate::response::StatusResponse;
use crate::response::response_no;
use crate::response::response_ok;
use crate::store::AssetStore;
use crate::store::clone_bytes;
use crate::text::asset_url;
use crate::text::is_image_content_type;
use crate::text::is_image_type;
use crate::text::spec_asset_url;
use crate::text::spec_decimal;
use crate::text::usize_to_decimal;

verus! {

/// The immutable per-process configuration that every request reads:
/// the shared access token, the public URL prefix under which assets
/// are served, and the category policy table.
pub struct ServerConfig {
    pub access_token: String,
    pub url_prefix: String,
    pub categories: PolicyTable,
}

/// One file part of an upload request: the client-declared filename
/// (absent in a malformed part), the declared content type, and the
/// part's bytes, `None` when reading the client's stream failed.
pub struct FilePart {
    pub file_name: Option<String>,
    pub content_type: String,
    pub data: Option<Vec<u8>>,
}

/// The filename of a part that has one.
pub open spec fn part_name(p: FilePart) -> Seq<char> {
    p.file_name->0@
}

/// The verdict on part `i`: the failure kind of the first check it
/// fails, or `None` when it passes all four. The checks run in order:
/// a filename must be present; the content type must indicate an
/// image unless the category allows anything; without override the
/// destination must be free, both in the committed store and among
/// the earlier parts of the same batch; and the part's bytes must
/// have been read.
pub open spec fn gate_code(
    parts: Seq<FilePart>,
    i: int,
    allow_non_image: bool,
    overwrite: bool,
    category: Seq<char>,
    store: Map<(Seq<char>, Seq<char>), Seq<u8>>,
) -> Option<ResponseCode> {
    let p = parts[i];
    if p.file_name is None {
        Some(ResponseCode::BadFileName)
    } else if !allow_non_image && !is_image_type(p.content_type@) {
        Some(ResponseCode::NotAnImage)
    } else if !overwrite && (store.contains_key((category, part_name(p))) || exists|j: int|
        0 <= j < i && parts[j].file_name is Some && part_name(parts[j]) == part_name(p)) {
        Some(ResponseCode::FileExisted)
    } else if p.data is None {
        Some(ResponseCode::BadFile)
    } else {
        None
    }
}

/// The first part at or after `from` that fails a check, with its
/// failure kind; `None` when every remaining part passes.
pub open spec fn first_gate_failure(
    parts: Seq<FilePart>,
    from: int,
    allow_non_image: bool,
    overwrite: bool,
    category: Seq<char>,
    store: Map<(Seq<char>, Seq<char>), Seq<u8>>,
) -> Option<(int, ResponseCode)>
    decreases parts.len() - from when 0 <= from <= parts.len()
{
    if from >= parts.len() {
        None
    } else {
        match gate_code(parts, from, allow_non_image, overwrite, category, store) {
            Some(c) => Some((from, c)),
            None => first_gate_failure(parts, from + 1, allow_non_image, overwrite, category, store),
        }
    }
}

/// The store after committing every part of the batch in arrival
/// order; a later part with the same filename wins.
pub open spec fn committed_store(
    store: Map<(Seq<char>, Seq<char>), Seq<u8>>,
    category: Seq<char>,
    parts: Seq<FilePart>,
) -> Map<(Seq<char>, Seq<char>), Seq<u8>>
    decreases parts.len(),
{
    if parts.len() == 0 {
        store
    } else {
        committed_store(store, category, parts.drop_last()).insert(
            (category, part_name(parts.last())),
            parts.last().data->0@,
        )
    }
}

/// The message that accompanies the failure of part `i` with `code`.
pub open spec fn failure_msg(parts: Seq<FilePart>, i: int, code: ResponseCode) -> Seq<char> {
    if code == ResponseCode::BadFileName {
        "invalid file name, file no: "@ + spec_decimal((i + 1) as nat)
    } else if code == ResponseCode::NotAnImage {
        "not a image: "@ + part_name(parts[i])
    } else if code == ResponseCode::FileExisted {
        "file existed: "@ + part_name(parts[i])
    } else {
        "bad file: "@ + part_name(parts[i])
    }
}

proof fn lemma_first_gate_failure_none(
    parts: Seq<FilePart>,
    from: int,
    allow_non_image: bool,
    overwrite: bool,
    category: Seq<char>,
    store: Map<(Seq<char>, Seq<char>), Seq<u8>>,
)
    requires
        0 <= from <= parts.len(),
        forall|k: int|
            from <= k < parts.len() ==> gate_code(parts, k, allow_non_image, overwrite, category, store) is None,
    ensures
        first_gate_failure(parts, from, allow_non_image, overwrite, category, store) is None,
    decreases parts.len() - from,
{
    if from < parts.len() {
        lemma_first_gate_failure_none(parts, from + 1, allow_non_image, overwrite, category, store);
    }
}

proof fn lemma_first_gate_failure_at(
    parts: Seq<FilePart>,
    from: int,
    i: int,
    allow_non_image: bool,
    overwrite: bool,
    category: Seq<char>,
    store: Map<(Seq<char>, Seq<char>), Seq<u8>>,
)
    requires
        0 <= from <= i < parts.len(),
        forall|k: int|
            from <= k < i ==> gate_code(parts, k, allow_non_image, overwrite, category, store) is None,
        gate_code(parts, i, allow_non_image, overwrite, category, store) is Some,
    ensures
        first_gate_failure(parts, from, allow_non_image, overwrite, category, store) == Some(
            (i, gate_code(parts, i, allow_non_image, overwrite, category, store)->0),
        ),
    decreases i - from,
{
    if from < i {
        lemma_first_gate_failure_at(parts, from + 1, i, allow_non_image, overwrite, category, store);
    }
}

/// A key of the given category is in the committed batch store
/// exactly when it was in the store before, or some part of the
/// batch carries its filename.
pub proof fn lemma_committed_contains(
    store: Map<(Seq<char>, Seq<char>), Seq<u8>>,
    category: Seq<char>,
    parts: Seq<FilePart>,
    name: Seq<char>,
)
    ensures
        committed_store(store, category, parts).contains_key((category, name)) <==> (
        store.contains_key((category, name)) || exists|j: int|
            0 <= j < parts.len() && part_name(parts[j]) == name),
    decreases parts.len(),
{
    if parts.len() > 0 {
        let prefix = parts.drop_last();
        lemma_committed_contains(store, category, prefix, name);
        if part_name(parts.last()) == name {
            assert(part_name(parts[parts.len() - 1]) == name);
        } else {
            if exists|j: int| 0 <= j < prefix.len() && part_name(prefix[j]) == name {
                let j = choose|j: int| 0 <= j < prefix.len() && part_name(prefix[j]) == name;
                assert(part_name(parts[j]) == name);
            }
            if exists|j: int| 0 <= j < parts.len() && part_name(parts[j]) == name {
                let j = choose|j: int| 0 <= j < parts.len() && part_name(parts[j]) == name;
                assert(j < parts.len() - 1);
                assert(part_name(prefix[j]) == name);
            }
        }
    }
}

/// Whether a part before index `i` already carries `name`.
fn staged_earlier(parts: &Vec<FilePart>, i: usize, name: &String) -> (r: bool)
    requires
        i <= parts@.len(),
    ensures
        r == exists|j: int|
            0 <= j < i && parts@[j].file_name is Some && part_name(parts@[j]) == name@,
{
    let mut j: usize = 0;
    while j < i
        invariant
            j <= i <= parts@.len(),
            forall|k: int|
                0 <= k < j ==> !(parts@[k].file_name is Some && part_name(parts@[k]) == name@),
        decreases i - j,
    {
        match &parts[j].file_name {
            Some(earlier) => {
                if *earlier == *name {
                    return true;
                }
            },
            None => {},
        }
        j += 1;
    }
    false
}

/// Runs one upload request through the sequence of checks and, when
/// every part passes, commits the whole batch into the store.
///
/// Failures are terminal and leave the store exactly as it was; on
/// success the response carries one public URL per part, in arrival
/// order. Storage itself cannot fail in this store model; a caller
/// that stages through a real filesystem answers its own I/O failures
/// (`InternalError`) before the batch reaches the store.
pub fn upload(
    config: &ServerConfig,
    param: &UploadImgParam,
    parts: &Vec<FilePart>,
    store: &mut AssetStore,
) -> (r: StatusResponse<Vec<String>>)
    ensures
        param.access_token@ != config.access_token@ ==> r.0 == 400 && r.1.code
            == ResponseCode::InvalidToken && r.1.msg@ == "invalid token"@ && r.1.data is None
            && final(store)@ == old(store)@,
        param.access_token@ == config.access_token@ && !config.categories@.contains_key(
            param.category@,
        ) ==> r.0 == 400 && r.1.code == ResponseCode::InvalidCategory && r.1.msg@
            == "invalid category"@ && r.1.data is None && final(store)@ == old(store)@,
        param.access_token@ == config.access_token@ && config.categories@.contains_key(
            param.category@,
        ) && param.compress != 0 ==> r.0 == 400 && r.1.code == ResponseCode::NotImplemented
            && r.1.msg@ == "not implemented: compress"@ && r.1.data is None && final(store)@
            == old(store)@,
        param.access_token@ == config.access_token@ && config.categories@.contains_key(
            param.category@,
        ) && param.compress == 0 && first_gate_failure(
            parts@,
            0,
            config.categories@[param.category@],
            param.override_flag,
            param.category@,
            old(store)@,
        ) is Some ==> ({
            let f = first_gate_failure(
                parts@,
                0,
                config.categories@[param.category@],
                param.override_flag,
                param.category@,
                old(store)@,
            )->0;
            r.0 == 400 && r.1.code == f.1 && r.1.msg@ == failure_msg(parts@, f.0, f.1)
                && r.1.data is None && final(store)@ == old(store)@
        }),
        param.access_token@ == config.access_token@ && config.categories@.contains_key(
            param.category@,
        ) && param.compress == 0 && first_gate_failure(
            parts@,
            0,
            config.categories@[param.category@],
            param.override_flag,
            param.category@,
            old(store)@,
        ) is None ==> r.0 == 200 && r.1.code == ResponseCode::Success && r.1.msg@ == "ok"@ && (
        r.1.data matches Some(urls) && urls@.len() == parts@.len() && (forall|i: int|
            0 <= i < parts@.len() ==> urls@[i]@ == spec_asset_url(
                config.url_prefix@,
                param.category@,
                part_name(parts@[i]),
            ))) && final(store)@ == committed_store(old(store)@, param.category@, parts@),
{
    if *param.access_token() != config.access_token {
        return response_no(ResponseCode::InvalidToken, "invalid token");
    }
    let category = param.category();
    let allow_non_image = match config.categories.lookup(category) {
        None => {
            return response_no(ResponseCode::InvalidCategory, "invalid category");
        },
        Some(allow) => allow,
    };
    if param.compress() != 0 {
        return response_no(ResponseCode::NotImplemented, "not implemented: compress");
    }
    let overwrite = param.override_flag();

    let ghost cat = category@;
    let ghost store0 = store@;
    let n = parts.len();

    let mut staged: Vec<(String, Vec<u8>)> = Vec::new();
    let mut i: usize = 0;
    while i < n
        invariant
            n == parts@.len(),
            i <= n,
            param.access_token@ == config.access_token@,
            config.categories@.contains_key(param.category@),
            param.compress == 0,
            overwrite == param.override_flag,
            cat == param.category@,
            category@ == cat,
            allow_non_image == config.categories@[cat],
            store0 == old(store)@,
            store@ == store0,
            staged@.len() == i,
            forall|k: int|
                0 <= k < i ==> gate_code(parts@, k, allow_non_image, overwrite, cat, store0) is None,
            forall|k: int|
                0 <= k < i ==> staged@[k].0@ == part_name(parts@[k]) && staged@[k].1@
                    == parts@[k].data->0@,
        decreases n - i,
    {
        let part = &parts[i];
        match &part.file_name {
            None => {
                let mut msg = "invalid file name, file no: ".to_owned();
                msg.append(usize_to_decimal(i + 1).as_str());
                proof {
                    lemma_first_gate_failure_at(
                        parts@,
                        0,
                        i as int,
                        allow_non_image,
                        overwrite,
                        cat,
                        store0,
                    );
                }
                return response_no(ResponseCode::BadFileName, msg.as_str());
            },
            Some(file_name) => {
                if !allow_non_image && !is_image_content_type(part.content_type.as_str()) {
                    let mut msg = "not a image: ".to_owned();
                    msg.append(file_name.as_str());
                    proof {
                        lemma_first_gate_failure_at(
                            parts@,
                            0,
                            i as int,
                            allow_non_image,
                            overwrite,
                            cat,
                            store0,
                        );
                    }
                    return response_no(ResponseCode::NotAnImage, msg.as_str());
                }
                if !overwrite && (store.contains(category, file_name) || staged_earlier(
                    parts,
                    i,
                    file_name,
                )) {
                    let mut msg = "file existed: ".to_owned();
                    msg.append(file_name.as_str());
                    proof {
                        lemma_first_gate_failure_at(
                            parts@,
                            0,
                            i as int,
                            allow_non_image,
                            overwrite,
                            cat,
                            store0,
                        );
                    }
                    return response_no(ResponseCode::FileExisted, msg.as_str());
                }
                match &part.data {
                    None => {
                        let mut msg = "bad file: ".to_owned();
                        msg.append(file_name.as_str());
                        proof {
                            lemma_first_gate_failure_at(
                                parts@,
                                0,
                                i as int,
                                allow_non_image,
                                overwrite,
                                cat,
                                store0,
                            );
                        }
                        return response_no(ResponseCode::BadFile, msg.as_str());
                    },
                    Some(data) => {
                        staged.push((file_name.clone(), clone_bytes(data)));
                    },
                }
            },
        }
        i += 1;
    }
    proof {
        lemma_first_gate_failure_none(parts@, 0, allow_non_image, overwrite, cat, store0);
    }

    let mut urls: Vec<String> = Vec::new();
    let mut k: usize = 0;
    while k < n
        invariant
            n == parts@.len(),
            k <= n,
            staged@.len() == n,
            param.access_token@ == config.access_token@,
            config.categories@.contains_key(param.category@),
            param.compress == 0,
            overwrite == param.override_flag,
            cat == param.category@,
            category@ == cat,
            allow_non_image == config.categories@[cat],
            store0 == old(store)@,
            first_gate_failure(parts@, 0, allow_non_image, overwrite, cat, store0) is None,
            forall|m: int|
                0 <= m < n ==> gate_code(parts@, m, allow_non_image, overwrite, cat, store0) is None,
            forall|m: int|
                0 <= m < n ==> staged@[m].0@ == part_name(parts@[m]) && staged@[m].1@
                    == parts@[m].data->0@,
            store@ == committed_store(store0, cat, parts@.take(k as int)),
            urls@.len() == k,
            forall|m: int|
                0 <= m < k ==> urls@[m]@ == spec_asset_url(
                    config.url_prefix@,
                    cat,
                    part_name(parts@[m]),
                ),
        decreases n - k,
    {
        let file_name = &staged[k].0;
        let data = &staged[k].1;
        proof {
            if !overwrite {
                let name_k = part_name(parts@[k as int]);
                lemma_committed_contains(store0, cat, parts@.take(k as int), name_k);
                assert(gate_code(parts@, k as int, allow_non_image, overwrite, cat, store0) is None);
                assert(!(exists|j: int|
                    0 <= j < parts@.take(k as int).len() && part_name(parts@.take(k as int)[j])
                        == name_k)) by {
                    if exists|j: int|
                        0 <= j < parts@.take(k as int).len() && part_name(
                            parts@.take(k as int)[j],
                        ) == name_k {
                        let j = choose|j: int|
                            0 <= j < parts@.take(k as int).len() && part_name(
                                parts@.take(k as int)[j],
                            ) == name_k;
                        assert(parts@.take(k as int)[j] == parts@[j]);
                        assert(gate_code(parts@, j, allow_non_image, overwrite, cat, store0) is None);
                        assert(parts@[j].file_name is Some && part_name(parts@[j]) == name_k);
                    }
                }
            }
            assert(parts@.take(k + 1).drop_last() =~= parts@.take(k as int));
            assert(parts@.take(k + 1).last() == parts@[k as int]);
        }
        // The collision checks guarantee that the store accepts every
        // part of the batch.
        store.put(category.clone(), file_name.clone(), clone_bytes(data), overwrite).unwrap();
        urls.push(asset_url(config.url_prefix.as_str(), category.as_str(), file_name.as_str()));
        k += 1;
    }
    proof {
        assert(parts@.take(n as int) =~= parts@);
    }
    response_ok(urls)
}

} // verus!
