//! Putting a block into the store of blobs and getting it back.

use vstd::prelude::*;

use super::hash::{hash_from_cid, same_hash};
use super::storage::IrohStore;

verus! {

/// Why a block was not stored or read. `E` is the type of the errors of the
/// store of blobs.
#[derive(Debug)]
pub enum BlockError<E> {
    /// The content identifier is not that of a blob.
    InvalidCid { message: String },
    /// The block does not have the hash that its content identifier claims.
    HashMismatch,
    /// The store of blobs failed.
    Store { error: E },
}

impl<E> BlockError<E> {
    /// What is wrong, in words, unless the store of blobs has to say.
    pub fn message(&self) -> (message: Option<String>)
        ensures
            match *self {
                BlockError::InvalidCid { message: words } =>
                    message matches Some(text) && text@ == words@,
                BlockError::HashMismatch =>
                    message matches Some(text) && text@ == "hash missmatch"@,
                BlockError::Store { .. } => message is None,
            },
    {
        match self {
            BlockError::InvalidCid { message } => Some(message.clone()),
            BlockError::HashMismatch => Some("hash missmatch".to_owned()),
            BlockError::Store { .. } => None,
        }
    }
}

/// Where the storing of a block stands.
pub enum PutPhase<E> {
    /// The block is to be imported, and to have the hash `expected`.
    Import { expected: Vec<u8> },
    /// The block is stored, or the attempt has failed.
    Done { result: Result<(), BlockError<E>> },
}

/// What has to be done next.
pub enum PutAction<'a> {
    /// Import the block as a raw blob.
    Import { block: &'a [u8] },
    /// Nothing is left to do: see [`PutBlock::outcome`].
    Finish,
}

/// What came of an action.
pub enum PutEvent<E> {
    /// The blob was stored, under `hash`.
    Imported { hash: Vec<u8> },
    /// The action did not succeed.
    Failed { error: E },
}

/// The storing of a block.
pub struct PutBlock<'b, E> {
    pub block: &'b [u8],
    pub phase: PutPhase<E>,
}

impl<'b, E> PutBlock<'b, E> {
    /// The phase that follows once the pending action has led to `event`.
    /// What was imported under another hash than the expected one stays in the
    /// store of blobs, but the block does not count as stored.
    pub open spec fn phase_after(self, event: PutEvent<E>) -> PutPhase<E> {
        match (self.phase, event) {
            (PutPhase::Import { expected }, PutEvent::Imported { hash }) =>
                if hash@ == expected@ {
                    PutPhase::Done { result: Ok(()) }
                } else {
                    PutPhase::Done { result: Err(BlockError::HashMismatch) }
                },
            (PutPhase::Import { .. }, PutEvent::Failed { error }) =>
                PutPhase::Done { result: Err(BlockError::Store { error }) },
            (PutPhase::Done { .. }, _) => self.phase,
        }
    }

    /// What has to be done next.
    pub open spec fn pending(&self) -> PutAction<'_> {
        match self.phase {
            PutPhase::Import { .. } => PutAction::Import { block: self.block },
            PutPhase::Done { .. } => PutAction::Finish,
        }
    }

    /// What has to be done next.
    pub fn action(&self) -> (action: PutAction<'_>)
        ensures
            action == self.pending(),
    {
        match &self.phase {
            PutPhase::Import { .. } => PutAction::Import { block: self.block },
            PutPhase::Done { .. } => PutAction::Finish,
        }
    }

    /// Takes in what came of the pending action.
    pub fn step(self, event: PutEvent<E>) -> (put: Self)
        ensures
            put.block == self.block,
            put.phase == self.phase_after(event),
    {
        let PutBlock { block, phase } = self;
        let phase = match (phase, event) {
            (PutPhase::Import { expected }, PutEvent::Imported { hash }) =>
                if same_hash(&hash, &expected) {
                    PutPhase::Done { result: Ok(()) }
                } else {
                    PutPhase::Done { result: Err(BlockError::HashMismatch) }
                },
            (PutPhase::Import { .. }, PutEvent::Failed { error }) =>
                PutPhase::Done { result: Err(BlockError::Store { error }) },
            (PutPhase::Done { result }, _) => PutPhase::Done { result },
        };
        PutBlock { block, phase }
    }

    /// How the storing ended; `None` while it goes on.
    pub fn outcome(self) -> (outcome: Option<Result<(), BlockError<E>>>)
        ensures
            match self.phase {
                PutPhase::Done { result } => outcome == Some(result),
                _ => outcome is None,
            },
    {
        match self.phase {
            PutPhase::Done { result } => Some(result),
            _ => None,
        }
    }
}

/// Where the reading of a block stands. `N` is the type of the entries of the
/// store of blobs.
pub enum GetPhase<N, E> {
    /// The blob is to be looked up.
    LookUp { hash: Vec<u8> },
    /// The blob is to be read.
    Read { hash: Vec<u8>, entry: N },
    /// The block was read, or is not there, or the attempt has failed.
    Done { result: Result<Option<Vec<u8>>, BlockError<E>> },
}

/// What has to be done next.
pub enum GetAction<'a, N> {
    /// Look up the blob with this hash.
    LookUp { hash: &'a Vec<u8> },
    /// Read all bytes of the blob.
    Read { entry: &'a N },
    /// Nothing is left to do: see [`GetBlock::outcome`].
    Finish,
}

/// What came of an action.
pub enum GetEvent<N, E> {
    /// There is a blob with the hash.
    Found { entry: N },
    /// There is no blob with the hash.
    Missing,
    /// All bytes of the blob.
    Data { bytes: Vec<u8> },
    /// The action did not succeed.
    Failed { error: E },
}

/// The reading of a block.
pub struct GetBlock<N, E> {
    pub phase: GetPhase<N, E>,
}

impl<N, E> GetBlock<N, E> {
    /// The phase that follows once the pending action has led to `event`; the
    /// same phase where `event` is no answer to that action.
    pub open spec fn phase_after(self, event: GetEvent<N, E>) -> GetPhase<N, E> {
        match (self.phase, event) {
            (GetPhase::LookUp { hash }, GetEvent::Found { entry }) => GetPhase::Read { hash, entry },
            (GetPhase::LookUp { .. }, GetEvent::Missing) => GetPhase::Done { result: Ok(None) },
            (GetPhase::Read { .. }, GetEvent::Data { bytes }) =>
                GetPhase::Done { result: Ok(Some(bytes)) },
            (GetPhase::Done { .. }, _) => self.phase,
            (_, GetEvent::Failed { error }) =>
                GetPhase::Done { result: Err(BlockError::Store { error }) },
            _ => self.phase,
        }
    }

    /// What has to be done next.
    pub open spec fn pending(&self) -> GetAction<'_, N> {
        match &self.phase {
            GetPhase::LookUp { hash } => GetAction::LookUp { hash },
            GetPhase::Read { entry, .. } => GetAction::Read { entry },
            GetPhase::Done { .. } => GetAction::Finish,
        }
    }

    /// What has to be done next.
    pub fn action(&self) -> (action: GetAction<'_, N>)
        ensures
            action == self.pending(),
    {
        match &self.phase {
            GetPhase::LookUp { hash } => GetAction::LookUp { hash },
            GetPhase::Read { entry, .. } => GetAction::Read { entry },
            GetPhase::Done { .. } => GetAction::Finish,
        }
    }

    /// Takes in what came of the pending action. An event that is no answer
    /// to that action changes nothing.
    pub fn step(self, event: GetEvent<N, E>) -> (get: Self)
        ensures
            get.phase == self.phase_after(event),
    {
        let phase = match (self.phase, event) {
            (GetPhase::LookUp { hash }, GetEvent::Found { entry }) => GetPhase::Read { hash, entry },
            (GetPhase::LookUp { .. }, GetEvent::Missing) => GetPhase::Done { result: Ok(None) },
            (GetPhase::Read { .. }, GetEvent::Data { bytes }) =>
                GetPhase::Done { result: Ok(Some(bytes)) },
            (GetPhase::Done { result }, _) => GetPhase::Done { result },
            (_, GetEvent::Failed { error }) =>
                GetPhase::Done { result: Err(BlockError::Store { error }) },
            (phase, _) => phase,
        };
        GetBlock { phase }
    }

    /// How the reading ended; `None` while it goes on.
    pub fn outcome(self) -> (outcome: Option<Result<Option<Vec<u8>>, BlockError<E>>>)
        ensures
            match self.phase {
                GetPhase::Done { result } => outcome == Some(result),
                _ => outcome is None,
            },
    {
        match self.phase {
            GetPhase::Done { result } => Some(result),
            _ => None,
        }
    }
}

impl<B> IrohStore<B> {
    /// Given a block and its content identifier, persists the block in storage.
    pub fn put_block<'b, E>(&self, cid: &[u8], block: &'b [u8]) -> (put: PutBlock<'b, E>)
        ensures
            put.block == block,
            match put.phase {
                PutPhase::Import { expected } => {
                    &&& super::hash::is_blob_cid(cid@)
                    &&& expected@ == super::hash::blob_hash(cid@)
                },
                PutPhase::Done { result } => {
                    &&& !super::hash::is_blob_cid(cid@)
                    &&& result matches Err(BlockError::InvalidCid { message })
                    &&& message@ == super::hash::blob_cid_error(cid@)
                },
            },
    {
        let phase = match hash_from_cid(cid) {
            Ok(expected) => PutPhase::Import { expected },
            Err(message) => PutPhase::Done { result: Err(BlockError::InvalidCid { message }) },
        };
        PutBlock { block, phase }
    }

    /// Given the content identifier of a block, retrieves the bytes of the block
    /// from storage.
    pub fn get_block<N, E>(&self, cid: &[u8]) -> (get: GetBlock<N, E>)
        ensures
            match get.phase {
                GetPhase::LookUp { hash } => {
                    &&& super::hash::is_blob_cid(cid@)
                    &&& hash@ == super::hash::blob_hash(cid@)
                },
                GetPhase::Read { .. } => false,
                GetPhase::Done { result } => {
                    &&& !super::hash::is_blob_cid(cid@)
                    &&& result matches Err(BlockError::InvalidCid { message })
                    &&& message@ == super::hash::blob_cid_error(cid@)
                },
            },
    {
        let phase = match hash_from_cid(cid) {
            Ok(hash) => GetPhase::LookUp { hash },
            Err(message) => GetPhase::Done { result: Err(BlockError::InvalidCid { message }) },
        };
        GetBlock { phase }
    }
}

} // verus!
