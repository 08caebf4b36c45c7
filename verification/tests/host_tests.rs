use miden_tx_core::host::{
    ACCOUNT_INCREMENT_NONCE_EVENT, ACCOUNT_PUSH_PROCEDURE_INDEX_EVENT, ACCOUNT_VAULT_ADD_ASSET_EVENT,
    AccountProcedureIndexMap, AdviceExtractor, AdviceExtractorKind, AdviceInjector, AdviceProvider,
    EventError, ExecutionError, HostResponse, NOTE_CREATED_EVENT, ProcessState, ROOT_CONTEXT,
    TransactionEvent, TransactionHost, TransactionMastStore,
};

const COMMITMENT: [u64; 4] = [10, 20, 30, 40];
const OTHER_COMMITMENT: [u64; 4] = [1, 2, 3, 4];

fn sample_host(stack: Vec<u64>) -> TransactionHost {
    let adv_provider = AdviceProvider::new(stack, Vec::new());
    let proc_map = AccountProcedureIndexMap::new(vec![(COMMITMENT, 7u8)]);
    let mast_store = TransactionMastStore::new(vec![(COMMITMENT, 42u64)]);
    TransactionHost::new(adv_provider, proc_map, mast_store)
}

fn root_process() -> ProcessState {
    ProcessState { ctx: ROOT_CONTEXT, code_commitment: COMMITMENT }
}

#[test]
fn decode_maps_every_known_id() {
    assert_eq!(
        TransactionEvent::decode(ACCOUNT_VAULT_ADD_ASSET_EVENT),
        Some(TransactionEvent::AccountVaultAddAsset)
    );
    assert_eq!(
        TransactionEvent::decode(ACCOUNT_INCREMENT_NONCE_EVENT),
        Some(TransactionEvent::AccountIncrementNonce)
    );
    assert_eq!(
        TransactionEvent::decode(ACCOUNT_PUSH_PROCEDURE_INDEX_EVENT),
        Some(TransactionEvent::AccountPushProcedureIndex)
    );
    assert_eq!(
        TransactionEvent::decode(NOTE_CREATED_EVENT),
        Some(TransactionEvent::NoteCreated)
    );
    assert_eq!(TransactionEvent::decode(NOTE_CREATED_EVENT + 1), None);
    assert_eq!(TransactionEvent::decode(0), None);
}

#[test]
fn on_event_rejects_unknown_id() {
    let mut host = sample_host(vec![]);
    let result = host.on_event(&root_process(), 0xDEAD_BEEF);
    assert_eq!(
        result,
        Err(ExecutionError::EventError(EventError::UnknownEventId(0xDEAD_BEEF)))
    );
}

#[test]
fn on_event_rejects_non_root_context() {
    // The event id itself is valid, but the emitting context is nested.
    let mut host = sample_host(vec![]);
    let process = ProcessState { ctx: 5, code_commitment: COMMITMENT };
    let result = host.on_event(&process, ACCOUNT_PUSH_PROCEDURE_INDEX_EVENT);
    assert_eq!(
        result,
        Err(ExecutionError::EventError(EventError::NotRootContext(
            TransactionEvent::AccountPushProcedureIndex
        )))
    );
    // The advice stack is untouched.
    assert_eq!(host.into_parts().stack, Vec::<u64>::new());
}

#[test]
fn on_event_rejects_non_root_context_for_noop_events() {
    let mut host = sample_host(vec![]);
    let process = ProcessState { ctx: 1, code_commitment: COMMITMENT };
    let result = host.on_event(&process, NOTE_CREATED_EVENT);
    assert_eq!(
        result,
        Err(ExecutionError::EventError(EventError::NotRootContext(
            TransactionEvent::NoteCreated
        )))
    );
}

#[test]
fn on_event_pushes_procedure_index_from_root() {
    let mut host = sample_host(vec![99]);
    let result = host.on_event(&root_process(), ACCOUNT_PUSH_PROCEDURE_INDEX_EVENT);
    assert_eq!(result, Ok(HostResponse::Empty));
    // Exactly one value was pushed: the looked-up procedure index.
    assert_eq!(host.into_parts().stack, vec![99, 7]);
}

#[test]
fn on_event_fails_for_unregistered_commitment() {
    let mut host = sample_host(vec![99]);
    let process = ProcessState { ctx: ROOT_CONTEXT, code_commitment: OTHER_COMMITMENT };
    let result = host.on_event(&process, ACCOUNT_PUSH_PROCEDURE_INDEX_EVENT);
    assert_eq!(
        result,
        Err(ExecutionError::EventError(EventError::ProcedureIndexNotFound))
    );
    assert_eq!(host.into_parts().stack, vec![99]);
}

#[test]
fn on_event_treats_other_events_as_noops() {
    let mut host = sample_host(vec![5]);
    let result = host.on_event(&root_process(), ACCOUNT_INCREMENT_NONCE_EVENT);
    assert_eq!(result, Ok(HostResponse::Empty));
    assert_eq!(host.into_parts().stack, vec![5]);
}

#[test]
fn get_advice_pops_the_stack_top() {
    let mut host = sample_host(vec![1, 2, 3]);
    let extractor = AdviceExtractor { kind: AdviceExtractorKind::PopStack };
    let result = host.get_advice(&root_process(), extractor);
    assert_eq!(result, Ok(HostResponse::Element(3)));
    assert_eq!(host.into_parts().stack, vec![1, 2]);
}

#[test]
fn get_advice_underflows_on_empty_stack() {
    let mut host = sample_host(vec![]);
    let extractor = AdviceExtractor { kind: AdviceExtractorKind::PopStack };
    let result = host.get_advice(&root_process(), extractor);
    assert_eq!(result, Err(ExecutionError::AdviceStackUnderflow));
}

#[test]
fn set_advice_pushes_onto_the_stack() {
    let mut host = sample_host(vec![1]);
    let result = host.set_advice(&root_process(), AdviceInjector::PushStack(9));
    assert_eq!(result, Ok(HostResponse::Empty));
    assert_eq!(host.into_parts().stack, vec![1, 9]);
}

#[test]
fn advice_map_round_trip() {
    let mut host = sample_host(vec![]);
    let key: [u64; 4] = [4, 3, 2, 1];
    let values = vec![11u64, 12, 13];
    let result = host.set_advice(&root_process(), AdviceInjector::MapInsert(key, values.clone()));
    assert_eq!(result, Ok(HostResponse::Empty));
    let extractor = AdviceExtractor { kind: AdviceExtractorKind::MapValues(key) };
    let result = host.get_advice(&root_process(), extractor);
    assert_eq!(result, Ok(HostResponse::Values(values)));
    // A missing key is an error.
    let extractor = AdviceExtractor { kind: AdviceExtractorKind::MapValues(OTHER_COMMITMENT) };
    let result = host.get_advice(&root_process(), extractor);
    assert_eq!(result, Err(ExecutionError::AdviceMapKeyNotFound));
}

#[test]
fn advice_map_insert_shadows_older_binding() {
    let mut provider = AdviceProvider::new(Vec::new(), Vec::new());
    let key: [u64; 4] = [4, 3, 2, 1];
    provider.insert_map(key, vec![1]);
    provider.insert_map(key, vec![2, 3]);
    assert_eq!(provider.get_mapped_values(&key), Some(vec![2, 3]));
}

#[test]
fn get_mast_forest_resolves_by_digest() {
    let host = sample_host(vec![]);
    assert_eq!(host.get_mast_forest(&COMMITMENT), Some(42));
    assert_eq!(host.get_mast_forest(&OTHER_COMMITMENT), None);
}

#[test]
fn procedure_index_map_looks_up_current_commitment() {
    let map = AccountProcedureIndexMap::new(vec![(COMMITMENT, 3u8), (OTHER_COMMITMENT, 4u8)]);
    let process = ProcessState { ctx: ROOT_CONTEXT, code_commitment: OTHER_COMMITMENT };
    assert_eq!(map.get_proc_index(&process), Ok(4));
    let process = ProcessState { ctx: ROOT_CONTEXT, code_commitment: [0, 0, 0, 0] };
    assert_eq!(map.get_proc_index(&process), Err(EventError::ProcedureIndexNotFound));
}
