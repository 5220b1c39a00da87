use evm_tracing::evm::{BlockExecutor, Evm, ExecutableTx, IntoTxEnv};
use evm_tracing::tracing::{BlockTracer, TraceOutput, TxTracer};
use revm::context::result::{ExecutionResult, Output, ResultAndState, ResultGas, SuccessReason};
use revm::primitives::Bytes;
use revm::state::EvmState;

/// Counts the steps it observes; a duplicate starts again from zero.
#[derive(Debug, PartialEq)]
struct StepCounter {
    steps: u64,
    /// Ids of the transactions whose steps it observed.
    seen: Vec<u64>,
}

impl Clone for StepCounter {
    fn clone(&self) -> Self {
        StepCounter { steps: 0, seen: Vec::new() }
    }
}

struct MockEvm {
    inspector: StepCounter,
    enabled: bool,
    steps_per_tx: u64,
    failing_tx: Option<u64>,
}

fn mock_evm(steps_per_tx: u64, failing_tx: Option<u64>) -> MockEvm {
    MockEvm {
        inspector: StepCounter { steps: 0, seen: Vec::new() },
        enabled: true,
        steps_per_tx,
        failing_tx,
    }
}

fn success(gas: u64) -> ResultAndState {
    ResultAndState::new(
        ExecutionResult::Success {
            reason: SuccessReason::Stop,
            gas: ResultGas::default().with_total_gas_spent(gas),
            logs: Vec::new(),
            output: Output::Call(Bytes::new()),
        },
        EvmState::default(),
    )
}

impl MockEvm {
    fn observe(&mut self, id: u64, steps: u64) {
        if self.enabled {
            self.inspector.steps += steps;
            self.inspector.seen.push(id);
        }
    }

    fn run(&mut self, tx: u64) -> Result<u64, String> {
        self.observe(tx, self.steps_per_tx);
        if self.failing_tx == Some(tx) {
            Err(format!("transaction {} failed", tx))
        } else {
            Ok(21000 + tx)
        }
    }
}

impl Evm for MockEvm {
    type Tx = u64;
    type Error = String;
    type Output = ResultAndState;
    type Inspector = StepCounter;

    fn inspector(&self) -> StepCounter {
        StepCounter { steps: self.inspector.steps, seen: self.inspector.seen.clone() }
    }

    fn inspector_enabled(&self) -> bool {
        self.enabled
    }

    fn with_inspector(self, inspector: StepCounter) -> Self {
        MockEvm { inspector, ..self }
    }

    fn with_inspector_enabled(self, enabled: bool) -> Self {
        MockEvm { enabled, ..self }
    }

    /// A run adds its steps to the live inspector when inspection is on.
    fn transacted(
        pre: Self,
        _tx: u64,
        _res: Result<ResultAndState, String>,
        post: Self,
    ) -> bool {
        let added = if pre.enabled { pre.steps_per_tx } else { 0 };
        post.inspector.steps == pre.inspector.steps + added
    }

    fn inspector_mut(&mut self) -> &mut StepCounter {
        &mut self.inspector
    }

    fn transact<T: IntoTxEnv<u64>>(&mut self, tx: T) -> Result<ResultAndState, String> {
        let tx = tx.into_tx_env();
        self.run(tx).map(success)
    }

    fn enable_inspector(&mut self) {
        self.enabled = true;
    }

    fn disable_inspector(&mut self) {
        self.enabled = false;
    }
}

#[derive(Clone, Copy, Debug, PartialEq)]
struct BlockTx(u64);

impl IntoTxEnv<u64> for BlockTx {
    fn tx_env(&self) -> u64 {
        self.0
    }

    fn into_tx_env(self) -> u64 {
        self.0
    }
}

impl ExecutableTx<u64> for BlockTx {}

/// Pre- and post-execution changes each make 100 steps, observed only if inspection is on.
struct MockExecutor {
    evm: MockEvm,
    fail_pre: bool,
    fail_post: bool,
}

const PRE_ID: u64 = 1000;
const POST_ID: u64 = 2000;

fn mock_executor(steps_per_tx: u64, failing_tx: Option<u64>) -> MockExecutor {
    MockExecutor {
        evm: mock_evm(steps_per_tx, failing_tx),
        fail_pre: false,
        fail_post: false,
    }
}

impl BlockExecutor for MockExecutor {
    type Evm = MockEvm;
    type Error = String;

    fn evm(&self) -> MockEvm {
        MockEvm {
            inspector: self.evm.inspector(),
            enabled: self.evm.enabled,
            steps_per_tx: self.evm.steps_per_tx,
            failing_tx: self.evm.failing_tx,
        }
    }

    fn with_evm(self, evm: MockEvm) -> Self {
        MockExecutor { evm, ..self }
    }

    /// A phase adds its steps to the live inspector when inspection is on.
    fn pre_execution_applied(pre: Self, res: Result<(), String>, post: Self) -> bool {
        let added = if pre.evm.enabled { 100 } else { 0 };
        res.is_ok() != pre.fail_pre && post.evm.inspector.steps == pre.evm.inspector.steps + added
    }

    /// A run adds its steps to the live inspector when inspection is on.
    fn executed(pre: Self, _tx: u64, _res: Result<u64, String>, post: Self) -> bool {
        let added = if pre.evm.enabled { pre.evm.steps_per_tx } else { 0 };
        post.evm.inspector.steps == pre.evm.inspector.steps + added
    }

    /// A phase adds its steps to the live inspector when inspection is on.
    fn post_execution_applied(pre: Self, res: Result<(), String>, post: Self) -> bool {
        let added = if pre.evm.enabled { 100 } else { 0 };
        res.is_ok() != pre.fail_post && post.evm.inspector.steps == pre.evm.inspector.steps + added
    }

    fn evm_mut(&mut self) -> &mut MockEvm {
        &mut self.evm
    }

    fn apply_pre_execution_changes(&mut self) -> Result<(), String> {
        self.evm.observe(PRE_ID, 100);
        if self.fail_pre {
            Err("pre-execution failed".to_string())
        } else {
            Ok(())
        }
    }

    fn execute_transaction<T: ExecutableTx<u64>>(&mut self, tx: T) -> Result<u64, String> {
        let id = tx.into_tx_env();
        self.evm.run(id)
    }

    fn apply_post_execution_changes(&mut self) -> Result<(), String> {
        self.evm.observe(POST_ID, 100);
        if self.fail_post {
            Err("post-execution failed".to_string())
        } else {
            Ok(())
        }
    }
}

fn project(tx: BlockTx, gas: u64, inspector: StepCounter) -> (u64, u64, u64, Vec<u64>) {
    (tx.0, gas, inspector.steps, inspector.seen)
}

#[test]
fn two_transactions_each_report_their_own_steps() {
    let tracer = BlockTracer::new(mock_executor(3, None));
    let outputs = tracer.trace_block(vec![BlockTx(1), BlockTx(2)], project).unwrap();
    assert_eq!(outputs.len(), 2);
    assert_eq!(outputs[0].2, 3);
    assert_eq!(outputs[1].2, 3);
}

#[test]
fn next_transaction_sees_nothing_of_the_previous_one() {
    let tracer = BlockTracer::new(mock_executor(5, None));
    let outputs =
        tracer.trace_block(vec![BlockTx(7), BlockTx(8), BlockTx(9)], project).unwrap();
    assert_eq!(outputs[0].3, vec![7]);
    assert_eq!(outputs[1].3, vec![8]);
    assert_eq!(outputs[2].3, vec![9]);
    for out in &outputs {
        assert_eq!(out.2, 5);
    }
}

#[test]
fn outputs_follow_transaction_order() {
    let tracer = BlockTracer::new(mock_executor(1, None));
    let outputs =
        tracer.trace_block(vec![BlockTx(30), BlockTx(10), BlockTx(20)], project).unwrap();
    let ids: Vec<u64> = outputs.iter().map(|o| o.0).collect();
    assert_eq!(ids, vec![30, 10, 20]);
    let gas: Vec<u64> = outputs.iter().map(|o| o.1).collect();
    assert_eq!(gas, vec![21030, 21010, 21020]);
}

#[test]
fn pre_and_post_changes_are_not_observed() {
    let tracer = BlockTracer::new(mock_executor(2, None));
    let outputs = tracer.trace_block(vec![BlockTx(1), BlockTx(2)], project).unwrap();
    for out in &outputs {
        assert!(!out.3.contains(&PRE_ID));
        assert!(!out.3.contains(&POST_ID));
        assert_eq!(out.2, 2);
    }
}

#[test]
fn pre_execution_leaves_the_held_inspector_untouched() {
    let mut executor = mock_executor(2, None);
    executor.evm.inspector.steps = 10;
    executor.evm.inspector.seen.push(99);
    let tracer = BlockTracer::new(executor);
    let outputs = tracer.trace_block(vec![BlockTx(4), BlockTx(5)], project).unwrap();
    assert_eq!(outputs, vec![(4, 21004, 12, vec![99, 4]), (5, 21005, 2, vec![5])]);
}

#[test]
fn failing_transaction_fails_the_whole_block() {
    let tracer = BlockTracer::new(mock_executor(3, Some(2)));
    let result = tracer.trace_block(vec![BlockTx(1), BlockTx(2), BlockTx(3)], project);
    assert_eq!(result, Err("transaction 2 failed".to_string()));
}

#[test]
fn failing_pre_execution_runs_no_transaction() {
    let mut executor = mock_executor(3, None);
    executor.fail_pre = true;
    let tracer = BlockTracer::new(executor);
    let calls = std::cell::Cell::new(0u32);
    let result = tracer.trace_block(vec![BlockTx(1)], |tx: BlockTx, gas: u64, i: StepCounter| {
        calls.set(calls.get() + 1);
        project(tx, gas, i)
    });
    assert_eq!(result, Err("pre-execution failed".to_string()));
    assert_eq!(calls.get(), 0);
}

#[test]
fn failing_post_execution_discards_outputs() {
    let mut executor = mock_executor(3, None);
    executor.fail_post = true;
    let tracer = BlockTracer::new(executor);
    let result = tracer.trace_block(vec![BlockTx(1), BlockTx(2)], project);
    assert_eq!(result, Err("post-execution failed".to_string()));
}

#[test]
fn empty_block_gives_no_outputs() {
    let tracer = BlockTracer::new(mock_executor(3, None));
    let outputs = tracer.trace_block(Vec::<BlockTx>::new(), project).unwrap();
    assert!(outputs.is_empty());
}

#[test]
fn tx_tracer_returns_steps_of_one_transaction() {
    let mut tracer = TxTracer::new(mock_evm(3, None));
    let first: TraceOutput<ResultAndState, StepCounter> = tracer.trace(1u64).unwrap();
    let second = tracer.trace(2u64).unwrap();
    assert_eq!(first.inspector, StepCounter { steps: 3, seen: vec![1] });
    assert_eq!(second.inspector, StepCounter { steps: 3, seen: vec![2] });
    assert!(matches!(first.result.result, ExecutionResult::Success { .. }));
    assert_eq!(first.result.result.tx_gas_used(), 21001);
}

#[test]
fn tx_tracer_resets_after_failure() {
    let mut tracer = TxTracer::new(mock_evm(4, Some(5)));
    let failed = tracer.trace(5u64);
    assert_eq!(failed.err(), Some("transaction 5 failed".to_string()));
    let next = tracer.trace(6u64).unwrap();
    assert_eq!(next.inspector, StepCounter { steps: 4, seen: vec![6] });
}

#[test]
fn tx_tracer_keeps_steps_observed_before_construction() {
    let mut evm = mock_evm(2, None);
    evm.inspector.steps = 10;
    evm.inspector.seen.push(99);
    let mut tracer = TxTracer::new(evm);
    let first = tracer.trace(1u64).unwrap();
    assert_eq!(first.inspector, StepCounter { steps: 12, seen: vec![99, 1] });
    let second = tracer.trace(2u64).unwrap();
    assert_eq!(second.inspector, StepCounter { steps: 2, seen: vec![2] });
}
