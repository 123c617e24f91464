//! What holds of blocks that are put into the store of blobs and read back.

use vstd::prelude::*;

use super::block::{
    BlockError, GetAction, GetBlock, GetEvent, GetPhase, PutAction, PutBlock, PutEvent, PutPhase,
};

verus! {

/// The blobs in a store: the bytes under each hash.
pub type Blobs = Map<Seq<u8>, Seq<u8>>;

/// The blobs after some imports, each of bytes under a hash.
pub open spec fn blobs_after(blobs: Blobs, imports: Seq<(Seq<u8>, Seq<u8>)>) -> Blobs
    decreases imports.len(),
{
    if imports.len() == 0 {
        blobs
    } else {
        let (hash, bytes) = imports.last();
        blobs_after(blobs, imports.drop_last()).insert(hash, bytes)
    }
}

/// The reading of a block, begun as `get`, after `events`.
pub open spec fn get_through<N, E>(
    get: GetBlock<N, E>,
    events: Seq<GetEvent<N, E>>,
) -> GetBlock<N, E>
    decreases events.len(),
{
    if events.len() == 0 {
        get
    } else {
        let before = get_through(get, events.drop_last());
        GetBlock { phase: before.phase_after(events.last()) }
    }
}

/// Whether `event` tells the truth about a store of blobs, as an answer to
/// `action`: a blob is found only if it is there, missed only if it is not, and
/// read as it is. `contents` tells the bytes behind an entry of the store.
pub open spec fn is_true<N, E>(
    blobs: Blobs,
    contents: spec_fn(N) -> Seq<u8>,
    action: GetAction<'_, N>,
    event: GetEvent<N, E>,
) -> bool {
    match (action, event) {
        (GetAction::LookUp { hash }, GetEvent::Found { entry }) => {
            &&& blobs.contains_key(hash@)
            &&& contents(entry) == blobs[hash@]
        },
        (GetAction::LookUp { hash }, GetEvent::Missing) => !blobs.contains_key(hash@),
        (GetAction::Read { entry }, GetEvent::Data { bytes }) => bytes@ == contents(*entry),
        _ => true,
    }
}

/// Whether all `events` tell the truth about a store of blobs.
pub open spec fn are_true<N, E>(
    blobs: Blobs,
    contents: spec_fn(N) -> Seq<u8>,
    get: GetBlock<N, E>,
    events: Seq<GetEvent<N, E>>,
) -> bool {
    forall|i: int|
        0 <= i < events.len() ==> is_true(
            blobs,
            contents,
            get_through(get, events.take(i)).pending(),
            #[trigger] events[i],
        )
}

proof fn lemma_imports_keep_the_blob(
    blobs: Blobs,
    imports: Seq<(Seq<u8>, Seq<u8>)>,
    hash: Seq<u8>,
    bytes: Seq<u8>,
)
    requires
        blobs.contains_key(hash),
        blobs[hash] == bytes,
        forall|i: int|
            0 <= i < imports.len() && (#[trigger] imports[i]).0 == hash ==> imports[i].1 == bytes,
    ensures
        blobs_after(blobs, imports).contains_key(hash),
        blobs_after(blobs, imports)[hash] == bytes,
    decreases imports.len(),
{
    if imports.len() > 0 {
        let earlier = imports.drop_last();
        assert forall|i: int|
            0 <= i < earlier.len() && (#[trigger] earlier[i]).0 == hash implies earlier[i].1
            == bytes by {
            assert(earlier[i] == imports[i]);
        }
        lemma_imports_keep_the_blob(blobs, earlier, hash, bytes);
        assert(imports.last() == imports[imports.len() - 1]);
    }
}

proof fn lemma_reading_is_true<N, E>(
    blobs: Blobs,
    contents: spec_fn(N) -> Seq<u8>,
    get: GetBlock<N, E>,
    hash: Seq<u8>,
    events: Seq<GetEvent<N, E>>,
)
    requires
        get.phase matches GetPhase::LookUp { hash: wanted } && wanted@ == hash,
        are_true(blobs, contents, get, events),
    ensures
        match get_through(get, events).phase {
            GetPhase::LookUp { hash: wanted } => wanted@ == hash,
            GetPhase::Read { entry, .. } => blobs.contains_key(hash) && contents(entry)
                == blobs[hash],
            GetPhase::Done { result: Ok(Some(bytes)) } =>
                blobs.contains_key(hash) && bytes@ == blobs[hash],
            GetPhase::Done { result: Ok(None) } => !blobs.contains_key(hash),
            GetPhase::Done { result: Err(_) } => true,
        },
    decreases events.len(),
{
    if events.len() > 0 {
        let earlier = events.drop_last();
        assert forall|i: int| 0 <= i < earlier.len() implies is_true(
            blobs,
            contents,
            get_through(get, earlier.take(i)).pending(),
            #[trigger] earlier[i],
        ) by {
            assert(earlier.take(i) =~= events.take(i));
            assert(earlier[i] == events[i]);
        }
        lemma_reading_is_true(blobs, contents, get, hash, earlier);
        assert(events.take(events.len() - 1) =~= earlier);
        assert(events[events.len() - 1] == events.last());
    }
}

/// The bytes that a put asks to be imported.
pub open spec fn import_of<E>(put: PutBlock<'_, E>) -> Seq<u8> {
    match put.pending() {
        PutAction::Import { block } => block@,
        PutAction::Finish => Seq::empty(),
    }
}

/// A block that was stored is read back, unless the store of blobs fails: if
/// `put` stored `block` under the content identifier `cid`, and whatever was
/// imported later under the same hash was the same block, then `get` never
/// misses the block of `cid`, and gives no other bytes for it. What is imported
/// is what `put` asks for.
pub proof fn law_stored_block_is_read_back<N, E>(
    cid: Seq<u8>,
    block: Seq<u8>,
    blobs: Blobs,
    contents: spec_fn(N) -> Seq<u8>,
    put: PutBlock<'_, E>,
    imported: PutEvent<E>,
    later: Seq<(Seq<u8>, Seq<u8>)>,
    get: GetBlock<N, E>,
    events: Seq<GetEvent<N, E>>,
)
    requires
        put.block@ == block,
        put.phase matches PutPhase::Import { expected } && expected@ == super::hash::blob_hash(cid),
        get.phase matches GetPhase::LookUp { hash: wanted } && wanted@ == super::hash::blob_hash(cid),
        put.phase_after(imported) matches PutPhase::Done { result: Ok(_) },
        imported matches PutEvent::Imported { hash } && {
            &&& forall|i: int|
                0 <= i < later.len() && (#[trigger] later[i]).0 == hash@ ==> later[i].1 == block
            &&& are_true(
                blobs_after(blobs.insert(hash@, import_of(put)), later),
                contents,
                get,
                events,
            )
        },
    ensures
        get_through(get, events).phase matches GetPhase::Done { result: Ok(found) }
            ==> found matches Some(bytes) && bytes@ == block,
{
    if let PutEvent::Imported { hash } = imported {
        let stored = blobs.insert(hash@, block);
        lemma_imports_keep_the_blob(stored, later, hash@, block);
        lemma_reading_is_true(blobs_after(stored, later), contents, get, hash@, events);
    }
}

/// What is read of a block is what the store of blobs holds under the hash in
/// the content identifier, and nothing is read exactly where it holds nothing.
pub proof fn law_reading_is_true<N, E>(
    blobs: Blobs,
    contents: spec_fn(N) -> Seq<u8>,
    get: GetBlock<N, E>,
    events: Seq<GetEvent<N, E>>,
)
    requires
        get.phase is LookUp,
        are_true(blobs, contents, get, events),
    ensures
        get.phase matches GetPhase::LookUp { hash } && (get_through(
            get,
            events,
        ).phase matches GetPhase::Done { result: Ok(block) } ==> match block {
            Some(bytes) => blobs.contains_key(hash@) && bytes@ == blobs[hash@],
            None => !blobs.contains_key(hash@),
        }),
{
    if let GetPhase::LookUp { hash } = get.phase {
        lemma_reading_is_true(blobs, contents, get, hash@, events);
    }
}

/// A put that is refused for the hash of its block leaves what is read under its
/// content identifier: a read after it gives what the store of blobs held there
/// before, or nothing if it held nothing.
pub proof fn law_refused_block_leaves_what_is_read<N, E>(
    cid: Seq<u8>,
    blobs: Blobs,
    contents: spec_fn(N) -> Seq<u8>,
    put: PutBlock<'_, E>,
    imported: PutEvent<E>,
    get: GetBlock<N, E>,
    events: Seq<GetEvent<N, E>>,
)
    requires
        put.phase matches PutPhase::Import { expected } && expected@ == super::hash::blob_hash(cid),
        put.phase_after(imported) matches PutPhase::Done { result } && result
            == Err::<(), BlockError<E>>(BlockError::HashMismatch),
        get.phase matches GetPhase::LookUp { hash: wanted } && wanted@ == super::hash::blob_hash(cid),
        imported matches PutEvent::Imported { hash } && are_true(
            blobs.insert(hash@, import_of(put)),
            contents,
            get,
            events,
        ),
    ensures
        get_through(get, events).phase matches GetPhase::Done { result: Ok(block) } ==> match block {
            Some(bytes) => {
                &&& blobs.contains_key(super::hash::blob_hash(cid))
                &&& bytes@ == blobs[super::hash::blob_hash(cid)]
            },
            None => !blobs.contains_key(super::hash::blob_hash(cid)),
        },
{
    if let PutEvent::Imported { hash } = imported {
        lemma_reading_is_true(
            blobs.insert(hash@, import_of(put)),
            contents,
            get,
            super::hash::blob_hash(cid),
            events,
        );
    }
}

/// Whether `event` is an answer to `action`, in the reading of a block.
pub open spec fn get_answers<N, E>(action: GetAction<'_, N>, event: GetEvent<N, E>) -> bool {
    match (action, event) {
        (GetAction::Finish, _) => false,
        (_, GetEvent::Failed { .. }) => true,
        (GetAction::LookUp { .. }, GetEvent::Found { .. }) => true,
        (GetAction::LookUp { .. }, GetEvent::Missing) => true,
        (GetAction::Read { .. }, GetEvent::Data { .. }) => true,
        _ => false,
    }
}

/// There is nothing left to do exactly at the end.
/// An event has an effect on the reading of a block exactly if it answers the
/// action that was asked for, and only an answer that the action failed ends it
/// with an error, which is that of the action.
pub proof fn law_reading_goes_by_answers<N, E>(get: GetBlock<N, E>, event: GetEvent<N, E>)
    ensures
        get.pending() is Finish <==> get.phase is Done,
        get.phase_after(event) == get.phase <==> !get_answers(get.pending(), event),
        get_answers(get.pending(), event) ==> match event {
            GetEvent::Failed { error } => get.phase_after(event) == (GetPhase::Done::<N, E> {
                result: Err(BlockError::Store { error }),
            }),
            _ => !(get.phase_after(event) matches GetPhase::Done { result: Err(_) }),
        },
{
}

/// What is asked for to read a block, where nothing fails: the blob with the
/// hash in question, and all bytes of the entry that was found. Those bytes are
/// the outcome, or nothing if there is no such blob.
pub proof fn law_reading_takes_these_steps<N, E>(hash: Vec<u8>, entry: N, bytes: Vec<u8>)
    ensures
        ({
            let start = GetBlock::<N, E> { phase: GetPhase::LookUp { hash } };
            let found = GetBlock { phase: start.phase_after(GetEvent::Found { entry }) };
            &&& start.pending() matches GetAction::LookUp { hash: of } && *of == hash
            &&& found.pending() matches GetAction::Read { entry: of } && *of == entry
            &&& found.phase_after(GetEvent::Data { bytes }) == (GetPhase::Done::<N, E> {
                result: Ok(Some(bytes)),
            })
            &&& start.phase_after(GetEvent::Missing) == (GetPhase::Done::<N, E> { result: Ok(None) })
        }),
{
}

/// A put asks for the whole block to be imported, and nothing else. It succeeds
/// exactly if the block was imported under the hash that was expected. A failed
/// import ends it with that failure.
pub proof fn law_put_succeeds_exactly_with_the_expected_hash<E>(
    put: PutBlock<'_, E>,
    expected: Vec<u8>,
    event: PutEvent<E>,
)
    requires
        put.phase == (PutPhase::Import::<E> { expected }),
    ensures
        put.pending() matches PutAction::Import { block } && block@ == put.block@,
        match event {
            PutEvent::Imported { hash } => put.phase_after(event) matches PutPhase::Done {
                result,
            } && (result is Ok <==> hash@ == expected@) && (result is Err ==> result->Err_0
                is HashMismatch),
            PutEvent::Failed { error } => put.phase_after(event) == (PutPhase::Done::<E> {
                result: Err(BlockError::Store { error }),
            }),
        },
        forall|later: PutEvent<E>|
            (PutBlock { block: put.block, phase: put.phase_after(event) }).phase_after(later)
                == put.phase_after(event),
{
}

} // verus!
