//! The laws that relate uploads to one another and to retrieval,
//! stated over the same spec functions that `upload` and `get_img`
//! promise in their contracts: `first_gate_failure` names the verdict
//! on a batch and `committed_store` the store a successful batch
//! leaves behind. The remaining guarantees — a wrong token is
//! answered `InvalidToken` before anything else is looked at, an
//! unknown category is answered `InvalidCategory`, any failure leaves
//! the store untouched, and an empty batch succeeds with no URLs —
//! are clauses of `upload`'s own contract.

use vstd::prelude::*;
use crate::pipeline::FilePart;
use crate::pipeline::committed_store;
use crate::pipeline::first_gate_failure;
use crate::pipeline::gate_code;
use crate::pipeline::part_name;
use crate::response::ResponseCode;
use crate::text::is_image_type;

verus! {

/// Round trip: after a batch commits, the store holds under
/// `(category, f)` exactly the bytes of the batch's last part named
/// `f`, so retrieving `category/f` returns those bytes.
pub proof fn lemma_upload_then_retrieve(
    store: Map<(Seq<char>, Seq<char>), Seq<u8>>,
    category: Seq<char>,
    parts: Seq<FilePart>,
    i: int,
)
    requires
        0 <= i < parts.len(),
        parts[i].data is Some,
        forall|j: int| i < j < parts.len() ==> part_name(parts[j]) != part_name(parts[i]),
    ensures
        committed_store(store, category, parts).contains_key((category, part_name(parts[i]))),
        committed_store(store, category, parts)[(category, part_name(parts[i]))]
            == parts[i].data->0@,
    decreases parts.len(),
{
    if i < parts.len() - 1 {
        let prefix = parts.drop_last();
        assert(forall|j: int|
            i < j < prefix.len() ==> part_name(prefix[j]) != part_name(prefix[i]));
        lemma_upload_then_retrieve(store, category, prefix, i);
    }
}

/// Collision without override: a batch of one part whose filename is
/// already committed fails its collision check with `FileExisted`, so
/// the upload answers `FileExisted` and — by `upload`'s contract —
/// leaves the store, and with it the original bytes, unchanged.
pub proof fn lemma_collision_without_override(
    store: Map<(Seq<char>, Seq<char>), Seq<u8>>,
    category: Seq<char>,
    allow_non_image: bool,
    part: FilePart,
)
    requires
        part.file_name is Some,
        !allow_non_image ==> is_image_type(part.content_type@),
        store.contains_key((category, part_name(part))),
    ensures
        first_gate_failure(seq![part], 0, allow_non_image, false, category, store) == Some(
            (0int, ResponseCode::FileExisted),
        ),
{
    assert(gate_code(seq![part], 0, allow_non_image, false, category, store) == Some(
        ResponseCode::FileExisted,
    ));
}

/// Collision with override: the same single-part batch with override
/// passes every check, and the committed store maps the filename to
/// the new bytes, so retrieval now returns them.
pub proof fn lemma_collision_with_override(
    store: Map<(Seq<char>, Seq<char>), Seq<u8>>,
    category: Seq<char>,
    allow_non_image: bool,
    part: FilePart,
)
    requires
        part.file_name is Some,
        part.data is Some,
        !allow_non_image ==> is_image_type(part.content_type@),
    ensures
        first_gate_failure(seq![part], 0, allow_non_image, true, category, store) is None,
        committed_store(store, category, seq![part]) == store.insert(
            (category, part_name(part)),
            part.data->0@,
        ),
{
    assert(gate_code(seq![part], 0, allow_non_image, true, category, store) is None);
    assert(first_gate_failure(seq![part], 1, allow_non_image, true, category, store) is None);
    assert(seq![part].drop_last() =~= Seq::<FilePart>::empty());
    assert(committed_store(store, category, Seq::<FilePart>::empty()) == store);
}

/// Content policy: a part whose declared type does not indicate an
/// image fails the content check of a category that only takes images
/// with `NotAnImage`; against a category that allows any content the
/// same part passes every check whenever its destination is free and
/// its bytes were read.
pub proof fn lemma_content_policy(
    store: Map<(Seq<char>, Seq<char>), Seq<u8>>,
    category: Seq<char>,
    overwrite: bool,
    part: FilePart,
)
    requires
        part.file_name is Some,
        !is_image_type(part.content_type@),
    ensures
        first_gate_failure(seq![part], 0, false, overwrite, category, store) == Some(
            (0int, ResponseCode::NotAnImage),
        ),
        part.data is Some && (overwrite || !store.contains_key((category, part_name(part))))
            ==> first_gate_failure(seq![part], 0, true, overwrite, category, store) is None,
{
    assert(gate_code(seq![part], 0, false, overwrite, category, store) == Some(
        ResponseCode::NotAnImage,
    ));
    if part.data is Some && (overwrite || !store.contains_key((category, part_name(part)))) {
        assert(gate_code(seq![part], 0, true, overwrite, category, store) is None);
        assert(first_gate_failure(seq![part], 1, true, overwrite, category, store) is None);
    }
}

/// Empty batch: a batch with no parts fails no check and commits
/// nothing, so a valid upload of it succeeds with an empty URL list
/// and an unchanged store.
pub proof fn lemma_empty_batch(
    store: Map<(Seq<char>, Seq<char>), Seq<u8>>,
    category: Seq<char>,
    allow_non_image: bool,
    overwrite: bool,
)
    ensures
        first_gate_failure(Seq::<FilePart>::empty(), 0, allow_non_image, overwrite, category, store)
            is None,
        committed_store(store, category, Seq::<FilePart>::empty()) == store,
{
}

} // verus!
