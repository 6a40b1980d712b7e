//! The decisions in validating a Cardano transaction for the mempool: which
//! network the genesis names, and whether the script evaluation report lets
//! the transaction in.

use vstd::prelude::*;

verus! {

/// A Cardano network.
#[derive(Clone, Copy, Debug, PartialEq, Eq, Structural)]
pub enum NetworkId {
    Mainnet,
    Testnet,
}

/// The network that the genesis names: `Mainnet` or `Testnet`; any other
/// name, or none, names no network.
pub fn network_id(name: Option<&str>) -> (r: Option<NetworkId>)
    ensures
        r == match name {
            Some(n) => if n@ == "Mainnet"@ {
                Some(NetworkId::Mainnet)
            } else if n@ == "Testnet"@ {
                Some(NetworkId::Testnet)
            } else {
                None::<NetworkId>
            },
            None => None::<NetworkId>,
        },
{
    match name {
        Some(n) => {
            let given = String::from_str(n);
            if given == String::from_str("Mainnet") {
                Some(NetworkId::Mainnet)
            } else if given == String::from_str("Testnet") {
                Some(NetworkId::Testnet)
            } else {
                None
            }
        },
        None => None,
    }
}

/// The purpose of a redeemer.
#[derive(Clone, Copy, Debug, PartialEq, Eq, Structural)]
pub enum RedeemerTag {
    Spend,
    Mint,
    Cert,
    Reward,
    Vote,
    Propose,
}

/// Execution units: memory and steps.
#[derive(Clone, Copy, Debug)]
pub struct ExUnits {
    pub mem: u64,
    pub steps: u64,
}

/// The result of evaluating one script, in a form that can be stored.
#[derive(Debug)]
pub struct SerializableEvalResult {
    pub tag: RedeemerTag,
    pub index: u32,
    pub units: ExUnits,
    pub success: bool,
    pub logs: Vec<String>,
}

/// The logs of an evaluation.
pub open spec fn logs_view(logs: Seq<String>) -> Seq<Seq<char>> {
    logs.map_values(|l: String| l@)
}

/// The position of the first failed evaluation, if any.
pub open spec fn first_failure(report: Seq<SerializableEvalResult>) -> Option<int> {
    if exists|i: int| 0 <= i < report.len() && !(#[trigger] report[i]).success {
        Some(choose|i: int| 0 <= i < report.len() && !(#[trigger] report[i]).success
            && forall|j: int| 0 <= j < i ==> (#[trigger] report[j]).success)
    } else {
        None
    }
}

proof fn lemma_first_failure(report: Seq<SerializableEvalResult>, i: int)
    requires
        0 <= i < report.len(),
        !report[i].success,
        forall|j: int| 0 <= j < i ==> (#[trigger] report[j]).success,
    ensures
        first_failure(report) == Some(i),
{
    let k = choose|k: int| 0 <= k < report.len() && !(#[trigger] report[k]).success
        && forall|j: int| 0 <= j < k ==> (#[trigger] report[j]).success;
    if k < i {
        assert(report[k].success);
    } else if k > i {
        assert(report[i].success);
    }
}

/// Whether the phase-two evaluation lets the transaction in: it does unless
/// some script failed, and then the logs of the first failure are the reason.
pub fn check_phase2(report: &Vec<SerializableEvalResult>) -> (r: Result<(), Vec<String>>)
    ensures
        match first_failure(report@) {
            Some(i) => r matches Err(logs) && logs_view(logs@) == logs_view(report@[i].logs@),
            None => r is Ok,
        },
{
    let mut i: usize = 0;
    while i < report.len()
        invariant
            i <= report.len(),
            forall|j: int| 0 <= j < i ==> (#[trigger] report@[j]).success,
        decreases report.len() - i,
    {
        if !report[i].success {
            proof { lemma_first_failure(report@, i as int); }
            let logs = report[i].logs.clone();
            assert(logs_view(logs@) =~= logs_view(report@[i as int].logs@));
            return Err(logs);
        }
        i = i + 1;
    }
    Ok(())
}

} // verus!
