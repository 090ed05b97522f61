//! The command line of the tool and the decisions that its commands make
//! before they do any work.
use vstd::prelude::*;
use vstd::string::StringExecFns;
use crate::text::{LogLevel, LogLine, info, line_of, lines_view, push_line, warn};

verus! {

/// Ethereum RPC endpoint that commands use unless told otherwise.
pub const DEFAULT_RPC_URL: &'static str = "https://eth.llamarpc.com";

/// Number of transactions that `benchmark` measures unless told otherwise.
pub const DEFAULT_BENCHMARK_TRANSACTIONS: usize = 50;

/// Number of items that `debug` shows unless told otherwise.
pub const DEFAULT_DEBUG_LIMIT: usize = 10;

/// Number of proofs that `prove-batch` generates unless told otherwise.
pub const DEFAULT_BATCH_COUNT: usize = 5;

/// Backend that `prove-transaction-with-backend` uses unless told otherwise.
pub const DEFAULT_BACKEND: &'static str = "auto";

/// Number of transactions per backend that `benchmark-compare` proves unless
/// told otherwise.
pub const DEFAULT_COMPARE_COUNT: usize = 5;

/// The parsed command line.
pub struct Cli {
    pub command: Commands,
}

/// The commands of the tool.
pub enum Commands {
    /// Test TigerBeetle connection
    TestTiger,
    /// Test Ethereum connection
    TestEth { rpc_url: String },
    /// Sync Ethereum blocks to TigerBeetle
    SyncBlocks { rpc_url: String, from: u64, to: u64 },
    /// Run performance benchmarks
    Benchmark { num_transactions: usize, include_ethereum: bool, rpc_url: String },
    /// Debug: Show stored transfers
    Debug { limit: usize },
    /// Query data
    Query { account_id: Option<u128>, transfer_id: Option<u128> },
    /// Generate ZK proof for transaction inclusion
    ProveTransaction { transfer_id: u128 },
    /// Batch generate ZK proofs
    ProveBatch { count: usize },
    /// [FUTURE] Prove real Ethereum transaction inclusion
    ProveInclusion { tx_hash: String, block_number: u64 },
    /// Setup ZisK project for transaction proofs
    SetupZisk,
    /// Check available ZK backends (ZisK, SP1)
    CheckBackends,
    /// Generate proof with specific backend
    ProveTransactionWithBackend { transfer_id: u128, backend: String },
    /// Setup SP1 project for transaction proofs
    SetupSp1,
    /// Benchmark comparison between backends
    BenchmarkCompare { count: usize },
}

/// What a `query` command asks for: an account id takes precedence over a
/// transfer id.
#[derive(Debug, Clone, Copy, PartialEq, Eq, Structural)]
pub enum QueryTarget {
    Account(u128),
    Transfer(u128),
    Nothing,
}

/// Decides what a `query` command with these options asks for.
pub fn query_target(account_id: Option<u128>, transfer_id: Option<u128>) -> (target: QueryTarget)
    ensures
        target == match account_id {
            Some(a) => QueryTarget::Account(a),
            None => match transfer_id {
                Some(t) => QueryTarget::Transfer(t),
                None => QueryTarget::Nothing,
            },
        },
{
    match account_id {
        Some(a) => QueryTarget::Account(a),
        None => match transfer_id {
            Some(t) => QueryTarget::Transfer(t),
            None => QueryTarget::Nothing,
        },
    }
}

/// A zero-knowledge virtual machine that proves transfers.
#[derive(Debug, Clone, Copy, PartialEq, Eq, Structural)]
pub enum Backend {
    Sp1,
    Zisk,
}

/// A backend name that is none of `sp1`, `zisk` and `auto`.
#[derive(Debug, Clone, Copy, PartialEq, Eq, Structural)]
pub enum BackendError {
    InvalidBackend,
}

/// The backend that a lower-case backend name selects: `sp1` and `zisk`
/// select themselves, `auto` selects SP1 when it is installed and ZisK
/// otherwise.
pub open spec fn backend_for(lowered: Seq<char>, sp1_available: bool) -> Result<
    Backend,
    BackendError,
> {
    if lowered == "sp1"@ {
        Ok(Backend::Sp1)
    } else if lowered == "zisk"@ {
        Ok(Backend::Zisk)
    } else if lowered == "auto"@ {
        if sp1_available {
            Ok(Backend::Sp1)
        } else {
            Ok(Backend::Zisk)
        }
    } else {
        Err(BackendError::InvalidBackend)
    }
}

/// The ASCII lower case of a character.
pub open spec fn ascii_lower_char(c: char) -> char {
    if 'A' <= c && c <= 'Z' {
        ((c as nat) + 32) as char
    } else {
        c
    }
}

/// The ASCII lower case of a text.
pub open spec fn ascii_lowercase(text: Seq<char>) -> Seq<char> {
    text.map_values(|c: char| ascii_lower_char(c))
}

/// Whether every character of `text` is ASCII.
pub open spec fn all_ascii(text: Seq<char>) -> bool {
    forall|i: int| 0 <= i < text.len() ==> (#[trigger] text[i] as nat) < 128
}

/// The lower case of a text under the Unicode case tables.
pub uninterp spec fn unicode_lowercase(text: Seq<char>) -> Seq<char>;

/// Lower-cases `text` with `str::to_lowercase`. The result depends on the
/// text alone and is named `unicode_lowercase`; on ASCII text it maps
/// `A`-`Z` to `a`-`z` and keeps every other character.
#[verifier::external_body]
fn to_lowercase(text: &str) -> (lowered: String)
    ensures
        lowered@ == unicode_lowercase(text@),
        all_ascii(text@) ==> lowered@ == ascii_lowercase(text@),
{
    text.to_lowercase()
}

/// Selects the backend that a lower-case backend name names.
pub fn choose_backend(lowered: &str, sp1_available: bool) -> (backend: Result<Backend, BackendError>)
    ensures
        backend == backend_for(lowered@, sp1_available),
{
    let name = String::from_str(lowered);
    if name == String::from_str("sp1") {
        Ok(Backend::Sp1)
    } else if name == String::from_str("zisk") {
        Ok(Backend::Zisk)
    } else if name == String::from_str("auto") {
        if sp1_available {
            Ok(Backend::Sp1)
        } else {
            Ok(Backend::Zisk)
        }
    } else {
        Err(BackendError::InvalidBackend)
    }
}

/// Selects the backend that a backend name names, ignoring case.
pub fn select_backend(backend: &str, sp1_available: bool) -> (selected: Result<Backend, BackendError>)
    ensures
        selected == backend_for(unicode_lowercase(backend@), sp1_available),
        all_ascii(backend@) ==> selected == backend_for(ascii_lowercase(backend@), sp1_available),
{
    let lowered = to_lowercase(backend);
    choose_backend(lowered.as_str(), sp1_available)
}

/// The banner that the tool shows when it starts and before a proof with a
/// chosen backend.
pub open spec fn banner_lines() -> Seq<(LogLevel, Seq<char>)> {
    seq![
        info("╭─────────────────────────────────────────────────────────────╮"@),
        info("│                🚀 zkCoprocessor v0.1.0                     │"@),
        info("│           Zero-Knowledge Transaction Verification           │"@),
        info("╰─────────────────────────────────────────────────────────────╯"@),
        info(""@),
    ]
}

/// The warning that a proof with a chosen backend proves data integrity,
/// not inclusion in a block.
pub open spec fn integrity_notice_lines() -> Seq<(LogLevel, Seq<char>)> {
    seq![
        warn("📢 IMPORTANT: This is a DATA INTEGRITY proof"@),
        warn("   • Proves transaction data consistency and validation"@),
        warn("   • Does NOT prove blockchain inclusion (use Merkle proofs for that)"@),
        warn("   • Verifies business logic constraints are met"@),
        info(""@),
    ]
}

/// The description of the backend that a lower-case backend name selects
/// (nothing for a name that selects none).
pub open spec fn selected_backend_lines(lowered: Seq<char>, sp1_available: bool) -> Seq<
    (LogLevel, Seq<char>),
> {
    if lowered == "sp1"@ {
        seq![
            info("🔵 Selected Backend: SP1 zkVM"@),
            info("   • High-performance RISC-V virtual machine"@),
            info("   • Rust-native circuit development"@),
            info("   • Production-ready and audited"@),
        ]
    } else if lowered == "zisk"@ {
        seq![
            info("🟡 Selected Backend: ZisK zkVM"@),
            info("   • PIL-based constraint system"@),
            info("   • Plonky3 proof system"@),
            info("   • Custom precompile support"@),
        ]
    } else if lowered == "auto"@ {
        seq![
            info("🔄 Auto-selecting optimal backend..."@),
            if sp1_available {
                info("   ✅ SP1 available and selected"@)
            } else {
                info("   ✅ ZisK available and selected"@)
            },
        ]
    } else {
        Seq::empty()
    }
}

/// The opening of a proof with a chosen backend: the banner and the
/// data-integrity notice, then, for a name that selects a backend, the
/// description of the selected backend and a blank line.
pub open spec fn backend_intro_lines(lowered: Seq<char>, sp1_available: bool) -> Seq<
    (LogLevel, Seq<char>),
> {
    banner_lines() + integrity_notice_lines() + if backend_for(lowered, sp1_available) is Ok {
        selected_backend_lines(lowered, sp1_available) + seq![info(""@)]
    } else {
        Seq::empty()
    }
}

/// Appends the banner.
fn push_banner_lines(lines: &mut Vec<LogLine>)
    ensures
        lines_view(final(lines)@) == lines_view(old(lines)@) + banner_lines(),
{
    let ghost start = lines_view(lines@);
    push_line(lines, line_of(LogLevel::Info, "╭─────────────────────────────────────────────────────────────╮"));
    push_line(lines, line_of(LogLevel::Info, "│                🚀 zkCoprocessor v0.1.0                     │"));
    push_line(lines, line_of(LogLevel::Info, "│           Zero-Knowledge Transaction Verification           │"));
    push_line(lines, line_of(LogLevel::Info, "╰─────────────────────────────────────────────────────────────╯"));
    push_line(lines, line_of(LogLevel::Info, ""));
    assert(lines_view(lines@) =~= start + banner_lines());
}

/// The banner that the tool shows when it starts.
pub fn startup_banner() -> (lines: Vec<LogLine>)
    ensures
        lines_view(lines@) == banner_lines(),
{
    let mut lines: Vec<LogLine> = Vec::new();
    push_banner_lines(&mut lines);
    assert(lines_view(lines@) =~= banner_lines());
    lines
}

/// The opening of a proof with the backend that a lower-case backend name
/// selects, and that backend or the error for a name that selects none
/// (the opening then stops after the data-integrity notice).
pub fn backend_intro(lowered: &str, sp1_available: bool) -> (intro: (
    Vec<LogLine>,
    Result<Backend, BackendError>,
))
    ensures
        lines_view(intro.0@) == backend_intro_lines(lowered@, sp1_available),
        intro.1 == backend_for(lowered@, sp1_available),
{
    let name = String::from_str(lowered);
    let is_sp1 = name == String::from_str("sp1");
    let is_zisk = name == String::from_str("zisk");
    let is_auto = name == String::from_str("auto");
    let mut lines: Vec<LogLine> = Vec::new();
    push_banner_lines(&mut lines);
    push_line(&mut lines, line_of(LogLevel::Warn, "📢 IMPORTANT: This is a DATA INTEGRITY proof"));
    push_line(&mut lines, line_of(LogLevel::Warn, "   • Proves transaction data consistency and validation"));
    push_line(&mut lines, line_of(LogLevel::Warn, "   • Does NOT prove blockchain inclusion (use Merkle proofs for that)"));
    push_line(&mut lines, line_of(LogLevel::Warn, "   • Verifies business logic constraints are met"));
    push_line(&mut lines, line_of(LogLevel::Info, ""));
    let ghost head = lines_view(lines@);
    if !is_sp1 && !is_zisk && !is_auto {
        assert(lines_view(lines@) =~= backend_intro_lines(lowered@, sp1_available));
        return (lines, Err(BackendError::InvalidBackend));
    }
    let selected = if is_sp1 {
        push_line(&mut lines, line_of(LogLevel::Info, "🔵 Selected Backend: SP1 zkVM"));
        push_line(&mut lines, line_of(LogLevel::Info, "   • High-performance RISC-V virtual machine"));
        push_line(&mut lines, line_of(LogLevel::Info, "   • Rust-native circuit development"));
        push_line(&mut lines, line_of(LogLevel::Info, "   • Production-ready and audited"));
        Backend::Sp1
    } else if is_zisk {
        push_line(&mut lines, line_of(LogLevel::Info, "🟡 Selected Backend: ZisK zkVM"));
        push_line(&mut lines, line_of(LogLevel::Info, "   • PIL-based constraint system"));
        push_line(&mut lines, line_of(LogLevel::Info, "   • Plonky3 proof system"));
        push_line(&mut lines, line_of(LogLevel::Info, "   • Custom precompile support"));
        Backend::Zisk
    } else {
        push_line(&mut lines, line_of(LogLevel::Info, "🔄 Auto-selecting optimal backend..."));
        if sp1_available {
            push_line(&mut lines, line_of(LogLevel::Info, "   ✅ SP1 available and selected"));
            Backend::Sp1
        } else {
            push_line(&mut lines, line_of(LogLevel::Info, "   ✅ ZisK available and selected"));
            Backend::Zisk
        }
    };
    assert(lines_view(lines@) =~= head + selected_backend_lines(lowered@, sp1_available));
    push_line(&mut lines, line_of(LogLevel::Info, ""));
    assert(lines_view(lines@) =~= backend_intro_lines(lowered@, sp1_available));
    (lines, Ok(selected))
}

/// The opening of a proof with the backend that a backend name selects,
/// ignoring case, and that backend or the error for a name that selects
/// none.
pub fn describe_backend_selection(backend: &str, sp1_available: bool) -> (intro: (
    Vec<LogLine>,
    Result<Backend, BackendError>,
))
    ensures
        lines_view(intro.0@) == backend_intro_lines(unicode_lowercase(backend@), sp1_available),
        intro.1 == backend_for(unicode_lowercase(backend@), sp1_available),
        all_ascii(backend@) ==> lines_view(intro.0@) == backend_intro_lines(
            ascii_lowercase(backend@),
            sp1_available,
        ),
        all_ascii(backend@) ==> intro.1 == backend_for(ascii_lowercase(backend@), sp1_available),
{
    let lowered = to_lowercase(backend);
    backend_intro(lowered.as_str(), sp1_available)
}

/// The error text for a backend name that selects no backend.
pub open spec fn invalid_backend_text(backend: Seq<char>) -> Seq<char> {
    "Invalid backend: "@ + backend + ". Use 'zisk', 'sp1', or 'auto'"@
}

impl BackendError {
    /// The error text for the backend name `backend`.
    pub fn message(&self, backend: &str) -> (text: String)
        ensures
            text@ == invalid_backend_text(backend@),
    {
        let mut text = String::from_str("Invalid backend: ");
        text.append(backend);
        text.append(". Use 'zisk', 'sp1', or 'auto'");
        text
    }
}

/// Which backend each name selects, whether SP1 is installed or not: `sp1`
/// always selects SP1 and `zisk` always selects ZisK; only `auto` depends
/// on SP1 being installed, choosing SP1 when it is and ZisK when it is not;
/// none of the three names is an error, and the opening of a proof with any
/// of them shows the selected backend.
pub proof fn lemma_backend_names(sp1_available: bool)
    ensures
        backend_for("sp1"@, sp1_available) == Ok::<Backend, BackendError>(Backend::Sp1),
        backend_for("zisk"@, sp1_available) == Ok::<Backend, BackendError>(Backend::Zisk),
        backend_for("auto"@, true) == Ok::<Backend, BackendError>(Backend::Sp1),
        backend_for("auto"@, false) == Ok::<Backend, BackendError>(Backend::Zisk),
        backend_intro_lines("sp1"@, sp1_available).contains(
            info("🔵 Selected Backend: SP1 zkVM"@),
        ),
        backend_intro_lines("zisk"@, sp1_available).contains(
            info("🟡 Selected Backend: ZisK zkVM"@),
        ),
        backend_intro_lines("auto"@, sp1_available).contains(
            info("🔄 Auto-selecting optimal backend..."@),
        ),
{
    reveal_strlit("sp1");
    reveal_strlit("zisk");
    reveal_strlit("auto");
    assert("sp1"@.len() != "zisk"@.len());
    assert("sp1"@.len() != "auto"@.len());
    assert("zisk"@[0] != "auto"@[0]);
    let head = banner_lines() + integrity_notice_lines();
    let sp1 = backend_intro_lines("sp1"@, sp1_available);
    assert(sp1[head.len() as int] == info("🔵 Selected Backend: SP1 zkVM"@));
    let zisk = backend_intro_lines("zisk"@, sp1_available);
    assert(zisk[head.len() as int] == info("🟡 Selected Backend: ZisK zkVM"@));
    let auto = backend_intro_lines("auto"@, sp1_available);
    assert(auto[head.len() as int] == info("🔄 Auto-selecting optimal backend..."@));
}

} // verus!
