//! The characteristics of two families of proof systems, as ordered entries.
use vstd::prelude::*;

verus! {

/// Characteristics of zk-SNARKs and zk-STARKs, one `(aspect, value)` entry each.
pub struct ZKComparison;

/// The aspects each table describes, in display order.
pub open spec fn aspects() -> Seq<&'static str> {
    seq!["Proof Size", "Verification Time", "Trusted Setup", "Quantum Resistant", "Best For", "Examples"]
}

/// The value of each aspect for zk-SNARKs.
pub open spec fn snark_values() -> Seq<&'static str> {
    seq![
        "~200 bytes (tiny)",
        "~5ms (very fast)",
        "Required ⚠️",
        "No",
        "Privacy coins, rollups with small proofs",
        "Zcash, zkSync, Polygon zkEVM",
    ]
}

/// The value of each aspect for zk-STARKs.
pub open spec fn stark_values() -> Seq<&'static str> {
    seq![
        "~100KB (larger)",
        "~50ms (slower)",
        "Not required ✓",
        "Yes ✓",
        "Transparent systems, future-proof",
        "StarkNet, StarkEx",
    ]
}

/// The entries pairing each aspect with its value.
pub open spec fn table(values: Seq<&'static str>) -> Seq<(&'static str, &'static str)> {
    Seq::new(aspects().len(), |i: int| (aspects()[i], values[i]))
}

impl ZKComparison {
    /// The zk-SNARK table.
    pub fn snark_characteristics() -> (r: Vec<(&'static str, &'static str)>)
        ensures
            r@ == table(snark_values()),
    {
        let r = vec![
            ("Proof Size", "~200 bytes (tiny)"),
            ("Verification Time", "~5ms (very fast)"),
            ("Trusted Setup", "Required ⚠️"),
            ("Quantum Resistant", "No"),
            ("Best For", "Privacy coins, rollups with small proofs"),
            ("Examples", "Zcash, zkSync, Polygon zkEVM"),
        ];
        assert(r@ =~= table(snark_values()));
        r
    }

    /// The zk-STARK table.
    pub fn stark_characteristics() -> (r: Vec<(&'static str, &'static str)>)
        ensures
            r@ == table(stark_values()),
    {
        let r = vec![
            ("Proof Size", "~100KB (larger)"),
            ("Verification Time", "~50ms (slower)"),
            ("Trusted Setup", "Not required ✓"),
            ("Quantum Resistant", "Yes ✓"),
            ("Best For", "Transparent systems, future-proof"),
            ("Examples", "StarkNet, StarkEx"),
        ];
        assert(r@ =~= table(stark_values()));
        r
    }
}

} // verus!
