use enso_temper::evm::Evm;
use enso_temper::evm::Execution;
use enso_temper::evm::ForkInfo;
use enso_temper::trace::decode_trace;
use enso_temper::trace::CallKind;
use enso_temper::trace::CallTrace;
use enso_temper::trace::TraceNode;
use enso_temper::types::Address;
use enso_temper::types::U256;

fn addr(n: u128) -> Address {
    Address { hi: 0, lo: n }
}

fn word(n: u64) -> U256 {
    U256::from_u64(n)
}

fn addr_hex(a: Address) -> String {
    format!("{:08x}{:032x}", a.hi, a.lo)
}

fn word_hex(v: U256) -> String {
    format!("{:032x}{:032x}", v.hi, v.lo)
}

fn sample_nodes() -> Vec<TraceNode> {
    vec![
        TraceNode {
            kind: CallKind::Call,
            depth: 0,
            from: addr(0xabc),
            to: addr(0xdef),
            value: word(0),
            selector: Some(0x12345678),
        },
        TraceNode {
            kind: CallKind::StaticCall,
            depth: 1,
            from: addr(0xdef),
            to: addr(0x999),
            value: word(3),
            selector: Some(0xdeadbeef),
        },
        TraceNode {
            kind: CallKind::Create,
            depth: 1,
            from: addr(0xdef),
            to: addr(0x777),
            value: word(0),
            selector: None,
        },
    ]
}

fn tables() -> (Vec<(Address, String)>, Vec<(u32, String)>) {
    (
        vec![(addr(0xdef), "Token".to_string())],
        vec![(0x12345678, "transfer(address,uint256)".to_string())],
    )
}

#[test]
fn test_decode_trace_rendering() {
    let nodes = sample_nodes();
    let (labels, sigs) = tables();
    let (decoded, text) = decode_trace(&nodes, &labels, &sigs);

    let expected = format!(
        "CALL 0x{} -> Token value 0x{} transfer(address,uint256)\n\
         \u{20}\u{20}STATICCALL 0x{} -> 0x{} value 0x{} 0xdeadbeef\n\
         \u{20}\u{20}CREATE 0x{} -> 0x{} value 0x{}\n",
        addr_hex(addr(0xabc)),
        word_hex(word(0)),
        addr_hex(addr(0xdef)),
        addr_hex(addr(0x999)),
        word_hex(word(3)),
        addr_hex(addr(0xdef)),
        addr_hex(addr(0x777)),
        word_hex(word(0)),
    );
    assert_eq!(text, expected);

    // One decoded node per raw node, annotated where the tables resolve.
    assert_eq!(decoded.len(), 3);
    assert_eq!(decoded[0].label, Some("Token".to_string()));
    assert_eq!(
        decoded[0].signature,
        Some("transfer(address,uint256)".to_string())
    );
    assert_eq!(decoded[1].label, None);
    assert_eq!(decoded[1].signature, None);
    assert_eq!(decoded[2].label, None);
    assert_eq!(decoded[2].signature, None);
}

#[test]
fn test_decode_trace_without_tables_falls_back_to_hex() {
    let nodes = vec![sample_nodes()[0]];
    let labels = Vec::new();
    let sigs = Vec::new();
    let (_, text) = decode_trace(&nodes, &labels, &sigs);
    let expected = format!(
        "CALL 0x{} -> 0x{} value 0x{} 0x12345678\n",
        addr_hex(addr(0xabc)),
        addr_hex(addr(0xdef)),
        word_hex(word(0)),
    );
    assert_eq!(text, expected);
}

#[test]
fn test_trace_formatting_toggle() {
    // Tracing enabled at construction: the raw trace is always carried
    // over; the rendered text is present exactly when requested.
    let fork = ForkInfo { block_number: 1, block_timestamp: 2, chain_id: 1 };
    let evm = Evm::new(None, "http://localhost:8545".to_string(), None, fork, true, None);
    let labels = Vec::new();
    let sigs = Vec::new();

    let outcome = || Execution {
        gas_used: 30_000,
        block_number: 1,
        reverted: false,
        exit_reason: 0,
        logs: Vec::new(),
        return_data: Vec::new(),
        traces: Some(sample_nodes()),
    };

    let plain = evm.finish_call(false, Ok(outcome()), &labels, &sigs).unwrap();
    assert!(plain.trace.is_some());
    assert!(plain.formatted_trace.is_none());

    let formatted = evm.finish_call(true, Ok(outcome()), &labels, &sigs).unwrap();
    assert!(formatted.trace.is_some());
    let text = formatted.formatted_trace.unwrap();
    // One rendered block per trace node, in depth-first pre-order.
    assert_eq!(text.lines().count(), 3);
    assert!(text.starts_with("CALL 0x"));
}

#[test]
fn test_reverted_execution_is_not_success() {
    let fork = ForkInfo { block_number: 1, block_timestamp: 2, chain_id: 1 };
    let evm = Evm::new(None, "http://localhost:8545".to_string(), None, fork, false, None);
    let labels = Vec::new();
    let sigs = Vec::new();
    let outcome = Execution {
        gas_used: 40_000,
        block_number: 1,
        reverted: true,
        exit_reason: 2,
        logs: Vec::new(),
        return_data: vec![0x08, 0xc3, 0x79, 0xa0],
        traces: None,
    };
    let r = evm.finish_call(false, Ok(outcome), &labels, &sigs).unwrap();
    assert!(!r.success);
    assert_eq!(r.exit_reason, 2);
    assert_eq!(r.return_data, vec![0x08, 0xc3, 0x79, 0xa0]);
}

#[test]
fn test_call_trace_projection() {
    let n = sample_nodes()[1];
    let t = CallTrace::from(n);
    assert_eq!(t.call_type, CallKind::StaticCall);
    assert_eq!(t.from, addr(0xdef));
    assert_eq!(t.to, addr(0x999));
    assert_eq!(t.value, word(3));
}
