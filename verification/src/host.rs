//! The transaction execution host: the capability set the virtual machine's
//! interpreter calls back into while executing one transaction.
//!
//! The host owns an advice provider (the non-deterministic input channel of
//! the running program), a procedure index map built at construction time
//! from the executing account's code commitments, and a handle store that
//! resolves program fragments by content digest. The interpreter hands each
//! callback a read-only view of its execution state: the current context
//! identifier and the code commitment under execution.
//!
//! Every error raised here is fatal to the current transaction execution:
//! it propagates to the interpreter, which aborts the run.

use vstd::prelude::*;
use crate::field::Word;

verus! {

/// Identifier of the root execution context: the outermost call frame of the
/// currently executing program. Only this context may raise privileged
/// events.
pub const ROOT_CONTEXT: u32 = 0;

/// Event id: an asset was added to the account vault.
pub const ACCOUNT_VAULT_ADD_ASSET_EVENT: u32 = 0x2_0000;

/// Event id: an asset was removed from the account vault.
pub const ACCOUNT_VAULT_REMOVE_ASSET_EVENT: u32 = 0x2_0001;

/// Event id: an account storage slot was written.
pub const ACCOUNT_STORAGE_SET_ITEM_EVENT: u32 = 0x2_0002;

/// Event id: the account nonce was incremented.
pub const ACCOUNT_INCREMENT_NONCE_EVENT: u32 = 0x2_0003;

/// Event id: the running program asks for the index of the account procedure
/// it is about to dispatch.
pub const ACCOUNT_PUSH_PROCEDURE_INDEX_EVENT: u32 = 0x2_0004;

/// Event id: a note was created.
pub const NOTE_CREATED_EVENT: u32 = 0x2_0005;

/// The transaction events the host recognizes. Identifiers outside this
/// enumeration are rejected outright.
#[derive(Debug, Clone, Copy, PartialEq, Eq, Structural)]
pub enum TransactionEvent {
    AccountVaultAddAsset,
    AccountVaultRemoveAsset,
    AccountStorageSetItem,
    AccountIncrementNonce,
    AccountPushProcedureIndex,
    NoteCreated,
}

/// The event kind a numeric event id decodes to, if any.
pub open spec fn spec_decode_event(event_id: u32) -> Option<TransactionEvent> {
    if event_id == ACCOUNT_VAULT_ADD_ASSET_EVENT {
        Some(TransactionEvent::AccountVaultAddAsset)
    } else if event_id == ACCOUNT_VAULT_REMOVE_ASSET_EVENT {
        Some(TransactionEvent::AccountVaultRemoveAsset)
    } else if event_id == ACCOUNT_STORAGE_SET_ITEM_EVENT {
        Some(TransactionEvent::AccountStorageSetItem)
    } else if event_id == ACCOUNT_INCREMENT_NONCE_EVENT {
        Some(TransactionEvent::AccountIncrementNonce)
    } else if event_id == ACCOUNT_PUSH_PROCEDURE_INDEX_EVENT {
        Some(TransactionEvent::AccountPushProcedureIndex)
    } else if event_id == NOTE_CREATED_EVENT {
        Some(TransactionEvent::NoteCreated)
    } else {
        None
    }
}

impl TransactionEvent {
    /// Decodes a numeric event id into a known event kind.
    pub fn decode(event_id: u32) -> (r: Option<TransactionEvent>)
        ensures
            r == spec_decode_event(event_id),
    {
        if event_id == ACCOUNT_VAULT_ADD_ASSET_EVENT {
            Some(TransactionEvent::AccountVaultAddAsset)
        } else if event_id == ACCOUNT_VAULT_REMOVE_ASSET_EVENT {
            Some(TransactionEvent::AccountVaultRemoveAsset)
        } else if event_id == ACCOUNT_STORAGE_SET_ITEM_EVENT {
            Some(TransactionEvent::AccountStorageSetItem)
        } else if event_id == ACCOUNT_INCREMENT_NONCE_EVENT {
            Some(TransactionEvent::AccountIncrementNonce)
        } else if event_id == ACCOUNT_PUSH_PROCEDURE_INDEX_EVENT {
            Some(TransactionEvent::AccountPushProcedureIndex)
        } else if event_id == NOTE_CREATED_EVENT {
            Some(TransactionEvent::NoteCreated)
        } else {
            None
        }
    }
}

/// Why an event was rejected.
#[derive(Debug, Clone, Copy, PartialEq, Eq, Structural)]
pub enum EventError {
    /// The numeric id is outside the known enumeration.
    UnknownEventId(u32),
    /// The named event was emitted from a context other than the root
    /// context.
    NotRootContext(TransactionEvent),
    /// No procedure index is registered for the code commitment under
    /// execution.
    ProcedureIndexNotFound,
}

/// Errors fatal to the current transaction execution.
#[derive(Debug, Clone, Copy, PartialEq, Eq, Structural)]
pub enum ExecutionError {
    /// Event dispatch failed; see [`EventError`].
    EventError(EventError),
    /// An advice extraction popped from an empty advice stack.
    AdviceStackUnderflow,
    /// An advice extraction looked up a key absent from the advice map.
    AdviceMapKeyNotFound,
}

/// What a host operation hands back to the interpreter.
#[derive(Debug, Clone, PartialEq, Eq)]
pub enum HostResponse {
    /// No value: the operation's effect is entirely in host state.
    Empty,
    /// A single field-element value.
    Element(u64),
    /// A sequence of field-element values.
    Values(Vec<u64>),
}

/// Read-only view of the interpreter's execution state, handed by reference
/// into each host callback: the current context identifier and the code
/// commitment of the program under execution.
#[derive(Debug, Clone, Copy, PartialEq, Eq)]
pub struct ProcessState {
    pub ctx: u32,
    pub code_commitment: Word,
}

/// First entry of `entries` whose key has the same elements as `key`.
pub open spec fn assoc_find<V>(entries: Seq<(Word, V)>, key: Seq<u64>) -> Option<V>
    decreases entries.len(),
{
    if entries.len() == 0 {
        None
    } else if entries[0].0@ == key {
        Some(entries[0].1)
    } else {
        assoc_find(entries.drop_first(), key)
    }
}

/// A fresh association inserted at the front shadows the old binding of its
/// key and leaves every other lookup unchanged.
pub proof fn lemma_assoc_find_insert_front<V>(
    entries: Seq<(Word, V)>,
    key: Word,
    value: V,
    probe: Seq<u64>,
)
    ensures
        assoc_find(entries.insert(0, (key, value)), probe) == if probe == key@ {
            Some(value)
        } else {
            assoc_find(entries, probe)
        },
{
    assert(entries.insert(0, (key, value)).drop_first() =~= entries);
}

/// Compares two words element by element.
fn words_equal(a: &Word, b: &Word) -> (r: bool)
    ensures
        r == (a@ == b@),
{
    let r = a[0] == b[0] && a[1] == b[1] && a[2] == b[2] && a[3] == b[3];
    proof {
        if r {
            assert(a@ =~= b@);
        }
    }
    r
}

/// What an advice extraction asks of the advice provider.
#[derive(Debug, Clone, Copy, PartialEq, Eq)]
pub struct AdviceExtractor {
    pub kind: AdviceExtractorKind,
}

/// The extraction operations the advice provider supports.
#[derive(Debug, Clone, Copy, PartialEq, Eq)]
pub enum AdviceExtractorKind {
    /// Pop the top element of the advice stack.
    PopStack,
    /// Read the values stored in the advice map under the given key.
    MapValues(Word),
}

/// What an advice injection asks of the advice provider.
#[derive(Debug, Clone, PartialEq, Eq)]
pub enum AdviceInjector {
    /// Push one element onto the advice stack.
    PushStack(u64),
    /// Bind a sequence of values to a key in the advice map.
    MapInsert(Word, Vec<u64>),
}

/// The advice provider: the non-deterministic input channel of the running
/// program, an element stack plus a key-value map. The host owns it
/// exclusively for the whole execution.
#[derive(Debug, Clone, PartialEq, Eq)]
pub struct AdviceProvider {
    /// The advice stack; its last element is the top.
    pub stack: Vec<u64>,
    /// The advice map; the binding nearest the front wins.
    pub map: Vec<(Word, Vec<u64>)>,
}

impl AdviceProvider {
    /// Builds a provider holding the externally supplied advice inputs.
    pub fn new(stack: Vec<u64>, map: Vec<(Word, Vec<u64>)>) -> (r: AdviceProvider)
        ensures
            r.stack == stack,
            r.map == map,
    {
        AdviceProvider { stack, map }
    }

    /// Pushes one element onto the advice stack.
    pub fn push_stack(&mut self, value: u64)
        ensures
            final(self).stack@ == old(self).stack@.push(value),
            final(self).map == old(self).map,
    {
        self.stack.push(value);
    }

    /// Pops the top element of the advice stack.
    pub fn pop_stack(&mut self) -> (r: Result<u64, ExecutionError>)
        ensures
            old(self).stack@.len() == 0 ==> r == Err::<u64, ExecutionError>(
                ExecutionError::AdviceStackUnderflow,
            ) && final(self).stack@ == old(self).stack@ && final(self).map == old(self).map,
            old(self).stack@.len() > 0 ==> r == Ok::<u64, ExecutionError>(old(self).stack@.last())
                && final(self).stack@ == old(self).stack@.drop_last() && final(self).map == old(self).map,
    {
        match self.stack.pop() {
            Some(v) => Ok(v),
            None => Err(ExecutionError::AdviceStackUnderflow),
        }
    }

    /// Binds `values` to `key` in the advice map, shadowing any earlier
    /// binding of the same key.
    pub fn insert_map(&mut self, key: Word, values: Vec<u64>)
        ensures
            final(self).map@ == old(self).map@.insert(0, (key, values)),
            final(self).stack == old(self).stack,
            forall|probe: Seq<u64>| #![all_triggers] assoc_find(final(self).map@, probe) == (
            if probe == key@ {
                Some(values)
            } else {
                assoc_find(old(self).map@, probe)
            }),
    {
        let ghost old_map = self.map@;
        self.map.insert(0, (key, values));
        proof {
            assert forall|probe: Seq<u64>| #![all_triggers] assoc_find(self.map@, probe) == (
            if probe == key@ {
                Some(values)
            } else {
                assoc_find(old_map, probe)
            }) by {
                lemma_assoc_find_insert_front(old_map, key, values, probe);
            }
        }
    }

    /// Returns a copy of the values bound to `key` in the advice map, if
    /// any.
    pub fn get_mapped_values(&self, key: &Word) -> (r: Option<Vec<u64>>)
        ensures
            assoc_find(self.map@, key@) matches Some(found) ==> (r matches Some(values) && values@
                == found@),
            assoc_find(self.map@, key@) is None ==> r is None,
    {
        proof {
            assert(self.map@.skip(0) =~= self.map@);
        }
        let mut i: usize = 0;
        while i < self.map.len()
            invariant
                0 <= i <= self.map@.len(),
                assoc_find(self.map@, key@) == assoc_find(self.map@.skip(i as int), key@),
            decreases self.map@.len() - i,
        {
            proof {
                assert(self.map@.skip(i as int)[0] == self.map@[i as int]);
                assert(self.map@.skip(i as int).drop_first() =~= self.map@.skip(i as int + 1));
            }
            if words_equal(&self.map[i].0, key) {
                let found = &self.map[i].1;
                let mut values: Vec<u64> = Vec::new();
                let mut j: usize = 0;
                while j < found.len()
                    invariant
                        0 <= j <= found@.len(),
                        values@ == found@.take(j as int),
                        found == self.map@[i as int].1,
                        i < self.map@.len(),
                    decreases found@.len() - j,
                {
                    values.push(found[j]);
                    j = j + 1;
                }
                proof {
                    assert(values@ =~= self.map@[i as int].1@);
                }
                return Some(values);
            }
            i = i + 1;
        }
        None
    }

    /// Carries out one extraction request and returns the extracted value.
    pub fn get_advice(&mut self, extractor: &AdviceExtractor) -> (r: Result<
        HostResponse,
        ExecutionError,
    >)
        ensures
            extractor.kind matches AdviceExtractorKind::PopStack ==> (old(self).stack@.len() == 0
                ==> r == Err::<HostResponse, ExecutionError>(ExecutionError::AdviceStackUnderflow)
                && final(self).stack@ == old(self).stack@ && final(self).map == old(self).map),
            extractor.kind matches AdviceExtractorKind::PopStack ==> (old(self).stack@.len() > 0
                ==> r == Ok::<HostResponse, ExecutionError>(
                HostResponse::Element(old(self).stack@.last()),
            ) && final(self).stack@ == old(self).stack@.drop_last() && final(self).map == old(self).map),
            extractor.kind matches AdviceExtractorKind::MapValues(key) ==> *final(self) == *old(self) && (assoc_find(old(self).map@, key@) matches Some(found) ==> (r matches Ok(resp)
                && resp matches HostResponse::Values(values) && values@ == found@)),
            extractor.kind matches AdviceExtractorKind::MapValues(key) ==> (assoc_find(
                old(self).map@,
                key@,
            ) is None ==> r == Err::<HostResponse, ExecutionError>(
                ExecutionError::AdviceMapKeyNotFound,
            )),
    {
        match &extractor.kind {
            AdviceExtractorKind::PopStack => {
                match self.pop_stack() {
                    Ok(v) => Ok(HostResponse::Element(v)),
                    Err(e) => Err(e),
                }
            },
            AdviceExtractorKind::MapValues(key) => {
                match self.get_mapped_values(key) {
                    Some(values) => Ok(HostResponse::Values(values)),
                    None => Err(ExecutionError::AdviceMapKeyNotFound),
                }
            },
        }
    }

    /// Carries out one injection request.
    pub fn set_advice(&mut self, injector: AdviceInjector) -> (r: Result<
        HostResponse,
        ExecutionError,
    >)
        ensures
            r == Ok::<HostResponse, ExecutionError>(HostResponse::Empty),
            injector matches AdviceInjector::PushStack(value) ==> final(self).stack@ == old(self).stack@.push(value) && final(self).map == old(self).map,
            injector matches AdviceInjector::MapInsert(key, values) ==> final(self).map@ == old(self).map@.insert(0, (key, values)) && final(self).stack == old(self).stack,
    {
        match injector {
            AdviceInjector::PushStack(value) => {
                self.push_stack(value);
            },
            AdviceInjector::MapInsert(key, values) => {
                self.insert_map(key, values);
            },
        }
        Ok(HostResponse::Empty)
    }
}

/// The per-execution map from an account's code commitment to the index of
/// the procedure the advice channel may dispatch; built once per host
/// instance from the code commitments of the executing accounts.
#[derive(Debug, Clone, PartialEq, Eq)]
pub struct AccountProcedureIndexMap {
    pub entries: Vec<(Word, u8)>,
}

impl AccountProcedureIndexMap {
    /// Builds the map from the given commitment-to-index associations.
    pub fn new(entries: Vec<(Word, u8)>) -> (r: AccountProcedureIndexMap)
        ensures
            r.entries == entries,
    {
        AccountProcedureIndexMap { entries }
    }

    /// Looks up the procedure index for the code commitment the interpreter
    /// is currently executing.
    pub fn get_proc_index(&self, process: &ProcessState) -> (r: Result<u8, EventError>)
        ensures
            assoc_find(self.entries@, process.code_commitment@) matches Some(idx) ==> r == Ok::<
                u8,
                EventError,
            >(idx),
            assoc_find(self.entries@, process.code_commitment@) is None ==> r == Err::<
                u8,
                EventError,
            >(EventError::ProcedureIndexNotFound),
    {
        proof {
            assert(self.entries@.skip(0) =~= self.entries@);
        }
        let mut i: usize = 0;
        while i < self.entries.len()
            invariant
                0 <= i <= self.entries@.len(),
                assoc_find(self.entries@, process.code_commitment@) == assoc_find(
                    self.entries@.skip(i as int),
                    process.code_commitment@,
                ),
            decreases self.entries@.len() - i,
        {
            proof {
                assert(self.entries@.skip(i as int)[0] == self.entries@[i as int]);
                assert(self.entries@.skip(i as int).drop_first() =~= self.entries@.skip(
                    i as int + 1,
                ));
            }
            if words_equal(&self.entries[i].0, &process.code_commitment) {
                return Ok(self.entries[i].1);
            }
            i = i + 1;
        }
        Err(EventError::ProcedureIndexNotFound)
    }
}

/// The content-addressed store of compiled program fragments, shared
/// read-only across executions. A fragment is held as a handle into a
/// process-wide registry whose lifetime outlives every host referencing it.
#[derive(Debug, Clone, PartialEq, Eq)]
pub struct TransactionMastStore {
    pub entries: Vec<(Word, u64)>,
}

impl TransactionMastStore {
    /// Builds a store from the given digest-to-handle associations.
    pub fn new(entries: Vec<(Word, u64)>) -> (r: TransactionMastStore)
        ensures
            r.entries == entries,
    {
        TransactionMastStore { entries }
    }

    /// Looks up a program fragment by content digest; absence is not an
    /// error at this layer.
    pub fn get(&self, node_digest: &Word) -> (r: Option<u64>)
        ensures
            r == assoc_find(self.entries@, node_digest@),
    {
        proof {
            assert(self.entries@.skip(0) =~= self.entries@);
        }
        let mut i: usize = 0;
        while i < self.entries.len()
            invariant
                0 <= i <= self.entries@.len(),
                assoc_find(self.entries@, node_digest@) == assoc_find(
                    self.entries@.skip(i as int),
                    node_digest@,
                ),
            decreases self.entries@.len() - i,
        {
            proof {
                assert(self.entries@.skip(i as int)[0] == self.entries@[i as int]);
                assert(self.entries@.skip(i as int).drop_first() =~= self.entries@.skip(
                    i as int + 1,
                ));
            }
            if words_equal(&self.entries[i].0, node_digest) {
                return Some(self.entries[i].1);
            }
            i = i + 1;
        }
        None
    }
}

/// The transaction execution host: advice pass-through, program fragment
/// resolution, and privileged event dispatch for one transaction's
/// execution.
#[derive(Debug, Clone, PartialEq, Eq)]
pub struct TransactionHost {
    pub adv_provider: AdviceProvider,
    pub acct_procedure_index_map: AccountProcedureIndexMap,
    pub mast_store: TransactionMastStore,
}

impl TransactionHost {
    /// Returns a new host owning the provided advice provider, procedure
    /// index map and fragment store.
    pub fn new(
        adv_provider: AdviceProvider,
        acct_procedure_index_map: AccountProcedureIndexMap,
        mast_store: TransactionMastStore,
    ) -> (r: TransactionHost)
        ensures
            r.adv_provider == adv_provider,
            r.acct_procedure_index_map == acct_procedure_index_map,
            r.mast_store == mast_store,
    {
        TransactionHost { adv_provider, acct_procedure_index_map, mast_store }
    }

    /// Consumes the host and returns its advice provider.
    pub fn into_parts(self) -> (r: AdviceProvider)
        ensures
            r == self.adv_provider,
    {
        self.adv_provider
    }

    /// Looks up the procedure index for the code commitment under execution
    /// and pushes it onto the advice stack.
    fn on_push_account_procedure_index(&mut self, process: &ProcessState) -> (r: Result<
        (),
        ExecutionError,
    >)
        ensures
            assoc_find(old(self).acct_procedure_index_map.entries@, process.code_commitment@)
                matches Some(idx) ==> r == Ok::<(), ExecutionError>(()) && final(self).adv_provider.stack@ == old(self).adv_provider.stack@.push(idx as u64) && final(self).adv_provider.map == old(self).adv_provider.map && final(self).acct_procedure_index_map == old(self).acct_procedure_index_map && final(self).mast_store == old(self).mast_store,
            assoc_find(
                old(self).acct_procedure_index_map.entries@,
                process.code_commitment@,
            ) is None ==> r == Err::<(), ExecutionError>(
                ExecutionError::EventError(EventError::ProcedureIndexNotFound),
            ) && *final(self) == *old(self),
    {
        let proc_idx = match self.acct_procedure_index_map.get_proc_index(process) {
            Ok(idx) => idx,
            Err(e) => {
                return Err(ExecutionError::EventError(e));
            },
        };
        self.adv_provider.push_stack(proc_idx as u64);
        Ok(())
    }

    /// Pure pass-through to the advice provider's extraction logic; the host
    /// adds no semantics of its own.
    pub fn get_advice(&mut self, process: &ProcessState, extractor: AdviceExtractor) -> (r: Result<
        HostResponse,
        ExecutionError,
    >)
        ensures
            extractor.kind matches AdviceExtractorKind::PopStack ==> (old(self).adv_provider.stack@.len() == 0 ==> r == Err::<HostResponse, ExecutionError>(
                ExecutionError::AdviceStackUnderflow,
            ) && final(self).adv_provider.stack@ == old(self).adv_provider.stack@ && final(self).adv_provider.map == old(self).adv_provider.map && final(self).acct_procedure_index_map
                == old(self).acct_procedure_index_map && final(self).mast_store == old(self).mast_store),
            extractor.kind matches AdviceExtractorKind::PopStack ==> (old(self).adv_provider.stack@.len() > 0 ==> r == Ok::<HostResponse, ExecutionError>(
                HostResponse::Element(old(self).adv_provider.stack@.last()),
            ) && final(self).adv_provider.stack@ == old(self).adv_provider.stack@.drop_last()
                && final(self).adv_provider.map == old(self).adv_provider.map && final(self).acct_procedure_index_map == old(self).acct_procedure_index_map && final(self).mast_store == old(self).mast_store),
            extractor.kind matches AdviceExtractorKind::MapValues(key) ==> *final(self) == *old(self) && (assoc_find(old(self).adv_provider.map@, key@) matches Some(found) ==> (r matches
            Ok(resp) && resp matches HostResponse::Values(values) && values@ == found@)),
            extractor.kind matches AdviceExtractorKind::MapValues(key) ==> (assoc_find(
                old(self).adv_provider.map@,
                key@,
            ) is None ==> r == Err::<HostResponse, ExecutionError>(
                ExecutionError::AdviceMapKeyNotFound,
            )),
    {
        self.adv_provider.get_advice(&extractor)
    }

    /// Pure pass-through to the advice provider's injection logic; the host
    /// adds no semantics of its own.
    pub fn set_advice(&mut self, process: &ProcessState, injector: AdviceInjector) -> (r: Result<
        HostResponse,
        ExecutionError,
    >)
        ensures
            r == Ok::<HostResponse, ExecutionError>(HostResponse::Empty),
            injector matches AdviceInjector::PushStack(value) ==> final(self).adv_provider.stack@
                == old(self).adv_provider.stack@.push(value) && final(self).adv_provider.map == old(self).adv_provider.map,
            injector matches AdviceInjector::MapInsert(key, values) ==> final(self).adv_provider.map@ == old(self).adv_provider.map@.insert(0, (key, values)) && final(self).adv_provider.stack == old(self).adv_provider.stack,
            final(self).acct_procedure_index_map == old(self).acct_procedure_index_map,
            final(self).mast_store == old(self).mast_store,
    {
        self.adv_provider.set_advice(injector)
    }

    /// Looks up a compiled program fragment by content digest in the shared
    /// store.
    pub fn get_mast_forest(&self, node_digest: &Word) -> (r: Option<u64>)
        ensures
            r == assoc_find(self.mast_store.entries@, node_digest@),
    {
        self.mast_store.get(node_digest)
    }

    /// Dispatches one interpreter event.
    ///
    /// An id outside the known enumeration, an event emitted from a
    /// non-root context, and a failed procedure index lookup each abort the
    /// execution with an event error. The procedure-index event pushes the
    /// looked-up index onto the advice stack; every other recognized event
    /// is a reserved extension point and leaves the host unchanged.
    pub fn on_event(&mut self, process: &ProcessState, event_id: u32) -> (r: Result<
        HostResponse,
        ExecutionError,
    >)
        ensures
            spec_decode_event(event_id) is None ==> r == Err::<HostResponse, ExecutionError>(
                ExecutionError::EventError(EventError::UnknownEventId(event_id)),
            ) && *final(self) == *old(self),
            spec_decode_event(event_id) matches Some(event) ==> (process.ctx != ROOT_CONTEXT ==> r
                == Err::<HostResponse, ExecutionError>(
                ExecutionError::EventError(EventError::NotRootContext(event)),
            ) && *final(self) == *old(self)),
            spec_decode_event(event_id) == Some(TransactionEvent::AccountPushProcedureIndex)
                && process.ctx == ROOT_CONTEXT ==> (assoc_find(
                old(self).acct_procedure_index_map.entries@,
                process.code_commitment@,
            ) matches Some(idx) ==> r == Ok::<HostResponse, ExecutionError>(HostResponse::Empty)
                && final(self).adv_provider.stack@ == old(self).adv_provider.stack@.push(
                idx as u64,
            ) && final(self).adv_provider.map == old(self).adv_provider.map && final(self).acct_procedure_index_map == old(self).acct_procedure_index_map && final(self).mast_store == old(self).mast_store),
            spec_decode_event(event_id) == Some(TransactionEvent::AccountPushProcedureIndex)
                && process.ctx == ROOT_CONTEXT ==> (assoc_find(
                old(self).acct_procedure_index_map.entries@,
                process.code_commitment@,
            ) is None ==> r == Err::<HostResponse, ExecutionError>(
                ExecutionError::EventError(EventError::ProcedureIndexNotFound),
            ) && *final(self) == *old(self)),
            spec_decode_event(event_id) matches Some(event) ==> (event
                != TransactionEvent::AccountPushProcedureIndex && process.ctx == ROOT_CONTEXT ==> r
                == Ok::<HostResponse, ExecutionError>(HostResponse::Empty) && *final(self) == *old(self)),
    {
        let event = match TransactionEvent::decode(event_id) {
            Some(event) => event,
            None => {
                return Err(ExecutionError::EventError(EventError::UnknownEventId(event_id)));
            },
        };
        if process.ctx != ROOT_CONTEXT {
            return Err(ExecutionError::EventError(EventError::NotRootContext(event)));
        }
        match event {
            TransactionEvent::AccountPushProcedureIndex => {
                match self.on_push_account_procedure_index(process) {
                    Ok(_) => Ok(HostResponse::Empty),
                    Err(e) => Err(e),
                }
            },
            _ => Ok(HostResponse::Empty),
        }
    }
}

} // verus!
