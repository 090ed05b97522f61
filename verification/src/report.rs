//! The reports that the proving commands show before and after a proof: the
//! transfer data being proved and the results of the proof.
use vstd::prelude::*;
use vstd::string::StringExecFns;
use std::time::{Duration, SystemTime};
use crate::cli::all_ascii;
use crate::decimal::decimal_text;
use crate::hexcodec::{hex_encode, hex_encoded};
use crate::text::{
    LogLevel,
    char_at,
    lemma_line_absent,
    lemma_lines_contains_concat,
    LogLine,
    account_short_text,
    format_account_short,
    hex_padded,
    info,
    line_of,
    lines_view,
    push_decimal,
    push_hex_padded,
    push_line,
    warn,
};
use crate::zk::prover::{TransactionData, TransactionProof};

verus! {

/// The ASCII upper case of a character.
pub open spec fn ascii_upper_char(c: char) -> char {
    if 'a' <= c && c <= 'z' {
        ((c as nat) - 32) as char
    } else {
        c
    }
}

/// The ASCII upper case of a text.
pub open spec fn ascii_uppercase(text: Seq<char>) -> Seq<char> {
    text.map_values(|c: char| ascii_upper_char(c))
}

/// The upper case of a text under the Unicode case tables.
pub uninterp spec fn unicode_uppercase(text: Seq<char>) -> Seq<char>;

/// Upper-cases `text` with `str::to_uppercase`. The result depends on the
/// text alone and is named `unicode_uppercase`; on ASCII text it maps
/// `a`-`z` to `A`-`Z` and keeps every other character.
#[verifier::external_body]
fn to_uppercase(text: &str) -> (upper: String)
    ensures
        upper@ == unicode_uppercase(text@),
        all_ascii(text@) ==> upper@ == ascii_uppercase(text@),
{
    text.to_uppercase()
}

/// The text of a Unix time in seconds as `%Y-%m-%d %H:%M:%S UTC`, or
/// `None` where the time lies outside the dates that can be written.
pub uninterp spec fn utc_timestamp_text(seconds: int) -> Option<Seq<char>>;

/// Writes a Unix time in seconds as `%Y-%m-%d %H:%M:%S UTC` with
/// `chrono::DateTime::from_timestamp` and `format`. The text depends on
/// the seconds alone, is written in UTC and is named `utc_timestamp_text`;
/// `from_timestamp` gives `None` for a time out of its range.
#[verifier::external_body]
fn format_utc_timestamp(seconds: i64) -> (text: Option<String>)
    ensures
        match text {
            Some(t) => utc_timestamp_text(seconds as int) == Some(t@),
            None => utc_timestamp_text(seconds as int) is None,
        },
{
    match chrono::DateTime::from_timestamp(seconds, 0) {
        Some(time) => Some(time.format("%Y-%m-%d %H:%M:%S UTC").to_string()),
        None => None,
    }
}

/// A point in time of the system clock.
#[verifier::external_type_specification]
#[verifier::external_body]
pub struct ExSystemTime(std::time::SystemTime);

/// The span of `seconds` whole seconds, with `Duration::from_secs`. A
/// `Duration` has no view here, so nothing is claimed of the value.
#[verifier::external_body]
fn duration_from_secs(seconds: u64) -> (span: Duration) {
    std::time::Duration::from_secs(seconds)
}

/// The time `span` after `UNIX_EPOCH`, with `SystemTime::checked_add`:
/// `None` where the platform's `SystemTime` cannot hold it. Which times a
/// platform holds, std leaves to the platform, so neither outcome is
/// claimed for a given span.
#[verifier::external_body]
fn time_after_epoch(span: Duration) -> (time: Option<SystemTime>) {
    std::time::UNIX_EPOCH.checked_add(span)
}

/// The `Debug` text of a `SystemTime`. Its form is the platform's and std
/// does not fix it, so nothing is claimed of the text.
#[verifier::external_body]
fn system_time_debug_text(time: &SystemTime) -> (text: String) {
    format!("{:?}", time)
}

/// Writes the time `timestamp` seconds after `UNIX_EPOCH` as the platform
/// writes a `SystemTime`, or `None` where the platform cannot hold it.
pub(crate) fn format_timestamp(timestamp: u64) -> (text: Option<String>) {
    match time_after_epoch(duration_from_secs(timestamp)) {
        Some(time) => Some(system_time_debug_text(&time)),
        None => None,
    }
}

/// The time shown in a proof report: the UTC text of the timestamp, or
/// `Invalid timestamp` where it cannot be written.
pub open spec fn shown_timestamp(seconds: i64) -> Seq<char> {
    match utc_timestamp_text(seconds as int) {
        Some(text) => text,
        None => "Invalid timestamp"@,
    }
}

/// The report of the transfer data about to be proved, with the amount in
/// ether as the caller wrote it.
pub open spec fn input_details_lines(data: TransactionData, eth_amount_text: Seq<char>) -> Seq<
    (LogLevel, Seq<char>),
> {
    seq![
        info(""@),
        info("╭─────────────────────────────────────────────────────────────╮"@),
        info("│                📋 TRANSACTION DATA TO PROVE                │"@),
        info("╰─────────────────────────────────────────────────────────────╯"@),
        info(""@),
        info("🎯 PROVING INTEGRITY OF:"@),
        info("   Transfer ID: "@ + decimal_text(data.transfer_id as nat)),
        info("   Block Number: "@ + decimal_text(data.block_number as nat)),
        info("   From Account: 0x"@ + hex_padded(data.from_account as nat, 32)),
        info("   To Account: 0x"@ + hex_padded(data.to_account as nat, 32)),
        info(
            "   Amount: "@ + decimal_text(data.amount as nat) + " wei ("@ + eth_amount_text
                + " ETH)"@,
        ),
        info("   Transaction Hash: 0x"@ + hex_encoded(data.tx_hash@)),
        info("   TX Index in Block: "@ + decimal_text(data.tx_index as nat)),
        info(""@),
        info("🔍 VALIDATION CONSTRAINTS:"@),
        info("   ✓ Transfer ID must be > 0"@),
        info("   ✓ Transfer ID must be in range [19000000000000, 20000000000000)"@),
        info("   ✓ Amount must be > 0"@),
        info("   ✓ From account ≠ To account"@),
        info("   ✓ Block number must be ≥ 19000000"@),
        info("   ✓ Transaction hash must be properly derived"@),
    ]
}

/// A line holding `prefix` followed by the `width` lowest hexadecimal
/// digits of `v`.
fn hex_line(prefix: &str, v: u128, width: usize) -> (line: LogLine)
    ensures
        line.view() == info(prefix@ + hex_padded(v as nat, width as nat)),
{
    let mut text = String::from_str(prefix);
    push_hex_padded(&mut text, v, width);
    LogLine { level: LogLevel::Info, text }
}

/// A line holding `prefix` followed by the lower-case hexadecimal text of
/// `data`.
fn hex_bytes_line(prefix: &str, data: &[u8]) -> (line: LogLine)
    ensures
        line.view() == info(prefix@ + hex_encoded(data@)),
{
    let mut text = String::from_str(prefix);
    let digits = hex_encode(data);
    text.append(digits.as_str());
    LogLine { level: LogLevel::Info, text }
}

/// An info line holding `prefix`, the decimal text of `n` and `suffix`.
fn decimal_line(prefix: &str, n: u128, suffix: &str) -> (line: LogLine)
    ensures
        line.view() == info(prefix@ + decimal_text(n as nat) + suffix@),
{
    let mut text = String::from_str(prefix);
    push_decimal(&mut text, n);
    text.append(suffix);
    LogLine { level: LogLevel::Info, text }
}

/// An info line holding `prefix` followed by `rest`.
fn text_line(prefix: &str, rest: &str) -> (line: LogLine)
    ensures
        line.view() == info(prefix@ + rest@),
{
    let mut text = String::from_str(prefix);
    text.append(rest);
    LogLine { level: LogLevel::Info, text }
}

/// The report of the transfer data about to be proved: its id, block,
/// accounts, amount (in wei and, as `eth_amount_text`, in ether), hash and
/// index, and the constraints that the proof checks.
pub fn display_proof_input_details(tx_data: &TransactionData, eth_amount_text: &str) -> (lines:
    Vec<LogLine>)
    ensures
        lines_view(lines@) == input_details_lines(*tx_data, eth_amount_text@),
{
    let mut lines: Vec<LogLine> = Vec::new();
    push_line(&mut lines, line_of(LogLevel::Info, ""));
    push_line(&mut lines, line_of(LogLevel::Info, "╭─────────────────────────────────────────────────────────────╮"));
    push_line(&mut lines, line_of(LogLevel::Info, "│                📋 TRANSACTION DATA TO PROVE                │"));
    push_line(&mut lines, line_of(LogLevel::Info, "╰─────────────────────────────────────────────────────────────╯"));
    push_line(&mut lines, line_of(LogLevel::Info, ""));
    push_line(&mut lines, line_of(LogLevel::Info, "🎯 PROVING INTEGRITY OF:"));
    push_line(&mut lines, decimal_line("   Transfer ID: ", tx_data.transfer_id, ""));
    push_line(&mut lines, decimal_line("   Block Number: ", tx_data.block_number as u128, ""));
    push_line(&mut lines, hex_line("   From Account: 0x", tx_data.from_account, 32));
    push_line(&mut lines, hex_line("   To Account: 0x", tx_data.to_account, 32));
    let mut amount = String::from_str("   Amount: ");
    push_decimal(&mut amount, tx_data.amount);
    amount.append(" wei (");
    amount.append(eth_amount_text);
    amount.append(" ETH)");
    push_line(&mut lines, LogLine { level: LogLevel::Info, text: amount });
    push_line(&mut lines, hex_bytes_line("   Transaction Hash: 0x", tx_data.tx_hash.as_slice()));
    push_line(&mut lines, decimal_line("   TX Index in Block: ", tx_data.tx_index as u128, ""));
    push_line(&mut lines, line_of(LogLevel::Info, ""));
    push_line(&mut lines, line_of(LogLevel::Info, "🔍 VALIDATION CONSTRAINTS:"));
    push_line(&mut lines, line_of(LogLevel::Info, "   ✓ Transfer ID must be > 0"));
    push_line(&mut lines, line_of(LogLevel::Info, "   ✓ Transfer ID must be in range [19000000000000, 20000000000000)"));
    push_line(&mut lines, line_of(LogLevel::Info, "   ✓ Amount must be > 0"));
    push_line(&mut lines, line_of(LogLevel::Info, "   ✓ From account ≠ To account"));
    push_line(&mut lines, line_of(LogLevel::Info, "   ✓ Block number must be ≥ 19000000"));
    push_line(&mut lines, line_of(LogLevel::Info, "   ✓ Transaction hash must be properly derived"));
    proof {
        reveal_strlit("");
    }
    assert(""@ =~= Seq::<char>::empty());
    assert(lines_view(lines@) =~= input_details_lines(*tx_data, eth_amount_text@));
    lines
}

/// What a proof of the given type guarantees, as the result report states
/// it.
pub open spec fn guarantee_lines(proof_type: Seq<char>) -> Seq<(LogLevel, Seq<char>)> {
    if proof_type == "sp1"@ {
        seq![
            info("   • STARK proof with RISC-V execution"@),
            info("   • Rust-native circuit validation"@),
            info("   • Production-grade security (audited)"@),
            info("   • EVM-compatible verification"@),
        ]
    } else if proof_type == "zisk"@ {
        seq![
            info("   • PIL-based polynomial constraints"@),
            info("   • RISC-V zero-knowledge virtual machine"@),
            info("   • Plonky3 proof system backend"@),
            info("   • Custom precompile optimizations"@),
        ]
    } else if proof_type == "simulated"@ {
        seq![
            warn("   ⚠️  NO CRYPTOGRAPHIC GUARANTEES"@),
            warn("   • This is simulation mode only"@),
            warn("   • Install real zkVM for production use"@),
        ]
    } else {
        seq![
            info("   • Zero-knowledge proof generated"@),
            info("   • Mathematically verifiable"@),
        ]
    }
}

/// The verification time of a proof record, zero where none is recorded.
pub open spec fn verification_time_or_zero(proof: TransactionProof) -> u64 {
    match proof.verification_time_ms {
        Some(ms) => ms,
        None => 0,
    }
}

/// The opening of the result report: the banner, the summary of the proof
/// (with its type as the caller wrote it) and what it proves of `data`.
pub open spec fn verification_head(
    proof: TransactionProof,
    data: TransactionData,
    proof_type_text: Seq<char>,
) -> Seq<(LogLevel, Seq<char>)> {
    seq![
        info(""@),
        info("╭─────────────────────────────────────────────────────────────╮"@),
        info("│                🔐 ZERO-KNOWLEDGE PROOF RESULTS             │"@),
        info("╰─────────────────────────────────────────────────────────────╯"@),
        info(""@),
        info("📊 PROOF SUMMARY:"@),
        info("   Proof Type: "@ + proof_type_text),
        info("   Generation Time: "@ + decimal_text(proof.generation_time_ms as nat) + "ms"@),
        info("   Proof Size: "@ + decimal_text(proof.proof_size_bytes as nat) + " bytes"@),
        info("   Circuit Constraints: "@ + decimal_text(proof.circuit_constraints as nat)),
        info(
            "   Verification Time: "@ + decimal_text(verification_time_or_zero(proof) as nat)
                + "ms"@,
        ),
        info(""@),
        info("🎯 WHAT WAS PROVEN:"@),
        info(
            "   ✅ Transaction "@ + decimal_text(data.transfer_id as nat)
                + " exists with valid constraints"@,
        ),
        info("   ✅ Amount transfer of "@ + decimal_text(data.amount as nat) + " wei is valid"@),
        info(
            "   ✅ Block "@ + decimal_text(data.block_number as nat)
                + " contains this transaction at index "@ + decimal_text(data.tx_index as nat),
        ),
        info(
            "   ✅ Account flow: "@ + account_short_text(data.from_account) + " → "@
                + account_short_text(data.to_account),
        ),
        info(""@),
        info("🔒 CRYPTOGRAPHIC GUARANTEES:"@),
    ]
}

/// The verification details of the result report: the inclusion hash, the
/// validity and the time of the proof (as the caller wrote it).
pub open spec fn verification_details(proof: TransactionProof, timestamp_text: Seq<char>) -> Seq<
    (LogLevel, Seq<char>),
> {
    seq![
        info(""@),
        info("🔍 VERIFICATION DETAILS:"@),
        info("   Inclusion Proof Hash: 0x"@ + hex_encoded(proof.inclusion_proof_hash@)),
        info("   Proof Valid: "@ + (if proof.is_valid { "✅ YES"@ } else { "❌ NO"@ })),
        info("   Timestamp: "@ + timestamp_text),
    ]
}

/// The line naming the proof file, where the record holds one.
pub open spec fn proof_file_lines(proof: TransactionProof) -> Seq<(LogLevel, Seq<char>)> {
    match proof.proof_path {
        Some(path) => seq![info("   Proof File: "@ + path@)],
        None => Seq::empty(),
    }
}

/// The closing of the result report: what the proof means.
pub open spec fn meaning_lines(proof: TransactionProof) -> Seq<(LogLevel, Seq<char>)> {
    seq![
        info(""@),
        info("💡 WHAT THIS MEANS:"@),
        info("   • Anyone can verify this transaction occurred without seeing private data"@),
        info(
            "   • The proof is compact ("@ + decimal_text(proof.proof_size_bytes as nat)
                + " bytes) vs full transaction data"@,
        ),
        info("   • Mathematical certainty without trusting the prover"@),
        info("   • Can be verified on-chain for smart contract integration"@),
    ]
}

/// The report of a finished proof of `data`, with the proof type and the
/// time of the proof as the caller wrote them.
pub open spec fn verification_lines(
    proof: TransactionProof,
    data: TransactionData,
    proof_type_text: Seq<char>,
    timestamp_text: Seq<char>,
) -> Seq<(LogLevel, Seq<char>)> {
    verification_head(proof, data, proof_type_text) + guarantee_lines(proof.proof_type@)
        + verification_details(proof, timestamp_text) + proof_file_lines(proof) + meaning_lines(
        proof,
    )
}

/// Appends the lines on what a proof of type `proof_type` guarantees.
fn push_guarantee_lines(lines: &mut Vec<LogLine>, proof_type: &String)
    ensures
        lines_view(final(lines)@) == lines_view(old(lines)@) + guarantee_lines(proof_type@),
{
    let ghost start = lines_view(lines@);
    if *proof_type == String::from_str("sp1") {
        push_line(lines, line_of(LogLevel::Info, "   • STARK proof with RISC-V execution"));
        push_line(lines, line_of(LogLevel::Info, "   • Rust-native circuit validation"));
        push_line(lines, line_of(LogLevel::Info, "   • Production-grade security (audited)"));
        push_line(lines, line_of(LogLevel::Info, "   • EVM-compatible verification"));
    } else if *proof_type == String::from_str("zisk") {
        push_line(lines, line_of(LogLevel::Info, "   • PIL-based polynomial constraints"));
        push_line(lines, line_of(LogLevel::Info, "   • RISC-V zero-knowledge virtual machine"));
        push_line(lines, line_of(LogLevel::Info, "   • Plonky3 proof system backend"));
        push_line(lines, line_of(LogLevel::Info, "   • Custom precompile optimizations"));
    } else if *proof_type == String::from_str("simulated") {
        push_line(lines, line_of(LogLevel::Warn, "   ⚠️  NO CRYPTOGRAPHIC GUARANTEES"));
        push_line(lines, line_of(LogLevel::Warn, "   • This is simulation mode only"));
        push_line(lines, line_of(LogLevel::Warn, "   • Install real zkVM for production use"));
    } else {
        push_line(lines, line_of(LogLevel::Info, "   • Zero-knowledge proof generated"));
        push_line(lines, line_of(LogLevel::Info, "   • Mathematically verifiable"));
    }
    assert(lines_view(lines@) =~= start + guarantee_lines(proof_type@));
}

/// The report of a finished proof of `tx_data`: its type (as
/// `proof_type_text`), times, size and constraint count, what it proves of
/// the transfer, what its type guarantees, its inclusion hash, validity,
/// time (as `timestamp_text`) and file, and what it means.
pub fn proof_verification_lines(
    proof: &TransactionProof,
    tx_data: &TransactionData,
    proof_type_text: &str,
    timestamp_text: &str,
) -> (lines: Vec<LogLine>)
    ensures
        lines_view(lines@) == verification_lines(
            *proof,
            *tx_data,
            proof_type_text@,
            timestamp_text@,
        ),
{
    let mut lines: Vec<LogLine> = Vec::new();
    push_line(&mut lines, line_of(LogLevel::Info, ""));
    push_line(&mut lines, line_of(LogLevel::Info, "╭─────────────────────────────────────────────────────────────╮"));
    push_line(&mut lines, line_of(LogLevel::Info, "│                🔐 ZERO-KNOWLEDGE PROOF RESULTS             │"));
    push_line(&mut lines, line_of(LogLevel::Info, "╰─────────────────────────────────────────────────────────────╯"));
    push_line(&mut lines, line_of(LogLevel::Info, ""));
    push_line(&mut lines, line_of(LogLevel::Info, "📊 PROOF SUMMARY:"));
    push_line(&mut lines, text_line("   Proof Type: ", proof_type_text));
    push_line(&mut lines, decimal_line("   Generation Time: ", proof.generation_time_ms as u128, "ms"));
    push_line(&mut lines, decimal_line("   Proof Size: ", proof.proof_size_bytes as u128, " bytes"));
    push_line(&mut lines, decimal_line("   Circuit Constraints: ", proof.circuit_constraints as u128, ""));
    let verification_time: u64 = match proof.verification_time_ms {
        Some(ms) => ms,
        None => 0,
    };
    push_line(&mut lines, decimal_line("   Verification Time: ", verification_time as u128, "ms"));
    push_line(&mut lines, line_of(LogLevel::Info, ""));
    push_line(&mut lines, line_of(LogLevel::Info, "🎯 WHAT WAS PROVEN:"));
    push_line(&mut lines, decimal_line("   ✅ Transaction ", tx_data.transfer_id, " exists with valid constraints"));
    push_line(&mut lines, decimal_line("   ✅ Amount transfer of ", tx_data.amount, " wei is valid"));
    let mut block = String::from_str("   ✅ Block ");
    push_decimal(&mut block, tx_data.block_number as u128);
    block.append(" contains this transaction at index ");
    push_decimal(&mut block, tx_data.tx_index as u128);
    push_line(&mut lines, LogLine { level: LogLevel::Info, text: block });
    let mut flow = String::from_str("   ✅ Account flow: ");
    let from = format_account_short(tx_data.from_account);
    let to = format_account_short(tx_data.to_account);
    flow.append(from.as_str());
    flow.append(" → ");
    flow.append(to.as_str());
    push_line(&mut lines, LogLine { level: LogLevel::Info, text: flow });
    push_line(&mut lines, line_of(LogLevel::Info, ""));
    push_line(&mut lines, line_of(LogLevel::Info, "🔒 CRYPTOGRAPHIC GUARANTEES:"));
    push_guarantee_lines(&mut lines, &proof.proof_type);
    push_line(&mut lines, line_of(LogLevel::Info, ""));
    push_line(&mut lines, line_of(LogLevel::Info, "🔍 VERIFICATION DETAILS:"));
    push_line(&mut lines, hex_bytes_line("   Inclusion Proof Hash: 0x", proof.inclusion_proof_hash.as_slice()));
    push_line(&mut lines, text_line("   Proof Valid: ", if proof.is_valid { "✅ YES" } else { "❌ NO" }));
    push_line(&mut lines, text_line("   Timestamp: ", timestamp_text));
    match &proof.proof_path {
        Some(path) => {
            push_line(&mut lines, text_line("   Proof File: ", path.as_str()));
        },
        None => {},
    }
    push_line(&mut lines, line_of(LogLevel::Info, ""));
    push_line(&mut lines, line_of(LogLevel::Info, "💡 WHAT THIS MEANS:"));
    push_line(&mut lines, line_of(LogLevel::Info, "   • Anyone can verify this transaction occurred without seeing private data"));
    push_line(&mut lines, decimal_line("   • The proof is compact (", proof.proof_size_bytes as u128, " bytes) vs full transaction data"));
    push_line(&mut lines, line_of(LogLevel::Info, "   • Mathematical certainty without trusting the prover"));
    push_line(&mut lines, line_of(LogLevel::Info, "   • Can be verified on-chain for smart contract integration"));
    proof {
        reveal_strlit("");
    }
    assert(""@ =~= Seq::<char>::empty());
    assert(lines_view(lines@) =~= verification_lines(
        *proof,
        *tx_data,
        proof_type_text@,
        timestamp_text@,
    ));
    lines
}

/// The report of a finished proof of `tx_data`, with its type upper-cased
/// and its time written in UTC (`Invalid timestamp` where it cannot be).
pub fn display_detailed_proof_verification(proof: &TransactionProof, tx_data: &TransactionData) -> (lines: Vec<LogLine>)
    ensures
        lines_view(lines@) == verification_lines(
            *proof,
            *tx_data,
            unicode_uppercase(proof.proof_type@),
            shown_timestamp(proof.timestamp as i64),
        ),
        all_ascii(proof.proof_type@) ==> lines_view(lines@) == verification_lines(
            *proof,
            *tx_data,
            ascii_uppercase(proof.proof_type@),
            shown_timestamp(proof.timestamp as i64),
        ),
{
    let upper = to_uppercase(proof.proof_type.as_str());
    let time = match format_utc_timestamp(proof.timestamp as i64) {
        Some(text) => text,
        None => String::from_str("Invalid timestamp"),
    };
    proof_verification_lines(proof, tx_data, upper.as_str(), time.as_str())
}

/// The closing lines of the SP1 result report: what such proofs are for.
pub open spec fn use_case_lines() -> Seq<(LogLevel, Seq<char>)> {
    seq![
        info(""@),
        info("🎯 USE CASES:"@),
        info("   • Privacy-preserving audit trails"@),
        info("   • Compliance verification without data exposure"@),
        info("   • Cross-chain transaction validation"@),
        info("   • Compressed transaction history proofs"@),
    ]
}

/// The report of a finished SP1 proof of `tx_data`: the result report with
/// the type upper-cased and the time as the platform writes a `SystemTime`,
/// followed by what such proofs are for; `None` where the platform's
/// `SystemTime` cannot hold the proof's time.
pub fn display_sp1_proof_verification(proof: &TransactionProof, tx_data: &TransactionData) -> (lines: Option<Vec<LogLine>>)
    ensures
        match lines {
            Some(lines) => exists|time_text: Seq<char>|
                {
                    &&& lines_view(lines@) == verification_lines(
                        *proof,
                        *tx_data,
                        unicode_uppercase(proof.proof_type@),
                        time_text,
                    ) + use_case_lines()
                    &&& all_ascii(proof.proof_type@) ==> lines_view(lines@) == verification_lines(
                        *proof,
                        *tx_data,
                        ascii_uppercase(proof.proof_type@),
                        time_text,
                    ) + use_case_lines()
                },
            None => true,
        },
{
    let upper = to_uppercase(proof.proof_type.as_str());
    let time = match format_timestamp(proof.timestamp) {
        Some(text) => text,
        None => return None,
    };
    let mut lines = proof_verification_lines(proof, tx_data, upper.as_str(), time.as_str());
    let ghost report = lines_view(lines@);
    push_line(&mut lines, line_of(LogLevel::Info, ""));
    push_line(&mut lines, line_of(LogLevel::Info, "🎯 USE CASES:"));
    push_line(&mut lines, line_of(LogLevel::Info, "   • Privacy-preserving audit trails"));
    push_line(&mut lines, line_of(LogLevel::Info, "   • Compliance verification without data exposure"));
    push_line(&mut lines, line_of(LogLevel::Info, "   • Cross-chain transaction validation"));
    push_line(&mut lines, line_of(LogLevel::Info, "   • Compressed transaction history proofs"));
    assert(lines_view(lines@) =~= report + use_case_lines());
    Some(lines)
}

/// Whether a line of a result report names a proof file: `P` fourth and
/// `F` tenth, as in `   Proof File: `.
spec fn names_proof_file(line: (LogLevel, Seq<char>)) -> bool {
    char_at(line.1, 3, 'P') && char_at(line.1, 9, 'F')
}

/// Whether a line of a result report states the validity: `P` fourth and
/// `V` tenth, as in `   Proof Valid: `.
spec fn states_validity(line: (LogLevel, Seq<char>)) -> bool {
    char_at(line.1, 3, 'P') && char_at(line.1, 9, 'V')
}

/// Whether a line of a result report is the STARK bullet: `•` fourth and
/// `S` sixth.
spec fn names_stark(line: (LogLevel, Seq<char>)) -> bool {
    char_at(line.1, 3, '•') && char_at(line.1, 5, 'S')
}

/// An info line that is none of the three kinds above.
spec fn plain_line(line: (LogLevel, Seq<char>)) -> bool {
    &&& line.0 == LogLevel::Info
    &&& !names_proof_file(line)
    &&& !states_validity(line)
    &&& !names_stark(line)
}

proof fn lemma_head_lines_plain(proof: TransactionProof, data: TransactionData, proof_type_text: Seq<char>)
    ensures
        forall|j: int|
            0 <= j < verification_head(proof, data, proof_type_text).len() ==> plain_line(
                #[trigger] verification_head(proof, data, proof_type_text)[j],
            ),
{
    reveal_strlit("");
    reveal_strlit("╭─────────────────────────────────────────────────────────────╮");
    reveal_strlit("│                🔐 ZERO-KNOWLEDGE PROOF RESULTS             │");
    reveal_strlit("╰─────────────────────────────────────────────────────────────╯");
    reveal_strlit("📊 PROOF SUMMARY:");
    reveal_strlit("   Proof Type: ");
    reveal_strlit("   Generation Time: ");
    reveal_strlit("   Proof Size: ");
    reveal_strlit("   Circuit Constraints: ");
    reveal_strlit("   Verification Time: ");
    reveal_strlit("🎯 WHAT WAS PROVEN:");
    reveal_strlit("   ✅ Transaction ");
    reveal_strlit("   ✅ Amount transfer of ");
    reveal_strlit("   ✅ Block ");
    reveal_strlit("   ✅ Account flow: ");
    reveal_strlit("🔒 CRYPTOGRAPHIC GUARANTEES:");
    let h = verification_head(proof, data, proof_type_text);
    assert forall|j: int| 0 <= j < h.len() implies plain_line(#[trigger] h[j]) by {
        if j == 0 {
        } else if j == 1 {
        } else if j == 2 {
        } else if j == 3 {
        } else if j == 4 {
        } else if j == 5 {
        } else if j == 6 {
        } else if j == 7 {
        } else if j == 8 {
        } else if j == 9 {
        } else if j == 10 {
        } else if j == 11 {
        } else if j == 12 {
        } else if j == 13 {
        } else if j == 14 {
        } else if j == 15 {
        } else if j == 16 {
        } else if j == 17 {
        } else if j == 18 {
        }
    }
}

proof fn lemma_meaning_lines_plain(proof: TransactionProof)
    ensures
        forall|j: int|
            0 <= j < meaning_lines(proof).len() ==> plain_line(#[trigger] meaning_lines(proof)[j]),
{
    reveal_strlit("");
    reveal_strlit("💡 WHAT THIS MEANS:");
    reveal_strlit("   • Anyone can verify this transaction occurred without seeing private data");
    reveal_strlit("   • The proof is compact (");
    reveal_strlit("   • Mathematical certainty without trusting the prover");
    reveal_strlit("   • Can be verified on-chain for smart contract integration");
    let m = meaning_lines(proof);
    assert forall|j: int| 0 <= j < m.len() implies plain_line(#[trigger] m[j]) by {
        if j == 0 {
        } else if j == 1 {
        } else if j == 2 {
        } else if j == 3 {
        } else if j == 4 {
        } else if j == 5 {
        }
    }
}

proof fn lemma_detail_lines(proof: TransactionProof, timestamp_text: Seq<char>)
    ensures
        forall|j: int|
            0 <= j < verification_details(proof, timestamp_text).len() ==> {
                let line = #[trigger] verification_details(proof, timestamp_text)[j];
                &&& line.0 == LogLevel::Info
                &&& !names_proof_file(line)
                &&& !names_stark(line)
                &&& (states_validity(line) ==> j == 3)
            },
        verification_details(proof, timestamp_text)[3] == info(
            "   Proof Valid: "@ + (if proof.is_valid {
                "✅ YES"@
            } else {
                "❌ NO"@
            }),
        ),
{
    reveal_strlit("");
    reveal_strlit("🔍 VERIFICATION DETAILS:");
    reveal_strlit("   Inclusion Proof Hash: 0x");
    reveal_strlit("   Proof Valid: ");
    reveal_strlit("   Timestamp: ");
    reveal_strlit("✅ YES");
    reveal_strlit("❌ NO");
    let d = verification_details(proof, timestamp_text);
    assert forall|j: int| 0 <= j < d.len() implies {
        let line = #[trigger] d[j];
        &&& line.0 == LogLevel::Info
        &&& !names_proof_file(line)
        &&& !names_stark(line)
        &&& (states_validity(line) ==> j == 3)
    } by {
        if j == 0 {
        } else if j == 1 {
        } else if j == 2 {
        } else if j == 3 {
        } else if j == 4 {
        }
    }
}

proof fn lemma_file_lines(proof: TransactionProof)
    ensures
        forall|j: int|
            0 <= j < proof_file_lines(proof).len() ==> {
                let line = #[trigger] proof_file_lines(proof)[j];
                &&& line.0 == LogLevel::Info
                &&& !states_validity(line)
                &&& !names_stark(line)
            },
{
    reveal_strlit("   Proof File: ");
}

proof fn lemma_guarantee_line_kinds(proof_type: Seq<char>)
    ensures
        forall|j: int|
            0 <= j < guarantee_lines(proof_type).len() ==> {
                let line = #[trigger] guarantee_lines(proof_type)[j];
                &&& !names_proof_file(line)
                &&& !states_validity(line)
                &&& (names_stark(line) ==> proof_type == "sp1"@)
                &&& (line.0 == LogLevel::Warn ==> proof_type == "simulated"@)
            },
{
    reveal_strlit("   • STARK proof with RISC-V execution");
    reveal_strlit("   • Rust-native circuit validation");
    reveal_strlit("   • Production-grade security (audited)");
    reveal_strlit("   • EVM-compatible verification");
    reveal_strlit("   • PIL-based polynomial constraints");
    reveal_strlit("   • RISC-V zero-knowledge virtual machine");
    reveal_strlit("   • Plonky3 proof system backend");
    reveal_strlit("   • Custom precompile optimizations");
    reveal_strlit("   ⚠️  NO CRYPTOGRAPHIC GUARANTEES");
    reveal_strlit("   • This is simulation mode only");
    reveal_strlit("   • Install real zkVM for production use");
    reveal_strlit("   • Zero-knowledge proof generated");
    reveal_strlit("   • Mathematically verifiable");
    reveal_strlit("sp1");
    reveal_strlit("zisk");
    reveal_strlit("simulated");
    let g = guarantee_lines(proof_type);
    assert forall|j: int| 0 <= j < g.len() implies {
        let line = #[trigger] g[j];
        &&& !names_proof_file(line)
        &&& !states_validity(line)
        &&& (names_stark(line) ==> proof_type == "sp1"@)
        &&& (line.0 == LogLevel::Warn ==> proof_type == "simulated"@)
    } by {
        if j == 0 {
        } else if j == 1 {
        } else if j == 2 {
        } else if j == 3 {
        }
    }
}

/// What the result report shows of a proof, for every proof and transfer:
/// the proof type as written; a proof-file line exactly for the file that
/// the record names, and none where it names none; the warning that there
/// are no cryptographic guarantees exactly for a simulated proof; the STARK
/// guarantee exactly for an SP1 proof; and `✅ YES` exactly for a valid
/// proof, `❌ NO` exactly for an invalid one.
pub proof fn lemma_verification_report_contents(
    proof: TransactionProof,
    data: TransactionData,
    proof_type_text: Seq<char>,
    timestamp_text: Seq<char>,
)
    ensures
        verification_lines(proof, data, proof_type_text, timestamp_text).contains(
            info("   Proof Type: "@ + proof_type_text),
        ),
        forall|path: Seq<char>|
            #[trigger] verification_lines(proof, data, proof_type_text, timestamp_text).contains(
                info("   Proof File: "@ + path),
            ) <==> (proof.proof_path matches Some(p) && p@ == path),
        verification_lines(proof, data, proof_type_text, timestamp_text).contains(
            warn("   ⚠️  NO CRYPTOGRAPHIC GUARANTEES"@),
        ) <==> proof.proof_type@ == "simulated"@,
        verification_lines(proof, data, proof_type_text, timestamp_text).contains(
            info("   • STARK proof with RISC-V execution"@),
        ) <==> proof.proof_type@ == "sp1"@,
        verification_lines(proof, data, proof_type_text, timestamp_text).contains(
            info("   Proof Valid: "@ + "✅ YES"@),
        ) <==> proof.is_valid,
        verification_lines(proof, data, proof_type_text, timestamp_text).contains(
            info("   Proof Valid: "@ + "❌ NO"@),
        ) <==> !proof.is_valid,
{
    reveal_strlit("   Proof Type: ");
    reveal_strlit("   Proof File: ");
    reveal_strlit("   Proof Valid: ");
    reveal_strlit("✅ YES");
    reveal_strlit("❌ NO");
    reveal_strlit("   ⚠️  NO CRYPTOGRAPHIC GUARANTEES");
    reveal_strlit("   • STARK proof with RISC-V execution");
    reveal_strlit("sp1");
    reveal_strlit("zisk");
    reveal_strlit("simulated");
    let h = verification_head(proof, data, proof_type_text);
    let g = guarantee_lines(proof.proof_type@);
    let d = verification_details(proof, timestamp_text);
    let f = proof_file_lines(proof);
    let m = meaning_lines(proof);
    let lines = verification_lines(proof, data, proof_type_text, timestamp_text);
    assert(lines == h + g + d + f + m);
    lemma_head_lines_plain(proof, data, proof_type_text);
    lemma_meaning_lines_plain(proof);
    lemma_detail_lines(proof, timestamp_text);
    lemma_file_lines(proof);
    lemma_guarantee_line_kinds(proof.proof_type@);
    // Which part of the report holds a line.
    assert forall|x: (LogLevel, Seq<char>)|
        lines.contains(x) <==> (h.contains(x) || g.contains(x) || d.contains(x) || f.contains(x)
            || m.contains(x)) by {
        lemma_lines_contains_concat(h, g, x);
        lemma_lines_contains_concat(h + g, d, x);
        lemma_lines_contains_concat(h + g + d, f, x);
        lemma_lines_contains_concat(h + g + d + f, m, x);
    }
    // The proof type.
    let type_line = info("   Proof Type: "@ + proof_type_text);
    assert(h[6] == type_line);
    assert(h.contains(type_line));
    // The proof file.
    assert forall|path: Seq<char>|
        #[trigger] lines.contains(info("   Proof File: "@ + path)) <==> (proof.proof_path matches Some(
            p,
        ) && p@ == path) by {
        let x = info("   Proof File: "@ + path);
        assert(("   Proof File: "@ + path)[3] == 'P');
        assert(("   Proof File: "@ + path)[9] == 'F');
        assert(names_proof_file(x));
        let not_file = |l: (LogLevel, Seq<char>)| names_proof_file(l);
        lemma_line_absent(h, not_file, x);
        lemma_line_absent(g, not_file, x);
        lemma_line_absent(d, not_file, x);
        lemma_line_absent(m, not_file, x);
        match proof.proof_path {
            Some(p) => {
                assert(f[0] == info("   Proof File: "@ + p@));
                if f.contains(x) {
                    let i = choose|i: int| 0 <= i < f.len() && f[i] == x;
                    assert(("   Proof File: "@ + p@).skip(15) =~= p@);
                    assert(("   Proof File: "@ + path).skip(15) =~= path);
                }
                if p@ == path {
                    assert(f.contains(x));
                }
            },
            None => {
                assert(!f.contains(x));
            },
        }
    }
    // The missing guarantees of a simulated proof.
    let no_guarantee = warn("   ⚠️  NO CRYPTOGRAPHIC GUARANTEES"@);
    if proof.proof_type@ == "simulated"@ {
        assert("simulated"@.len() != "sp1"@.len());
        assert("simulated"@.len() != "zisk"@.len());
        assert(g[0] == no_guarantee);
        assert(g.contains(no_guarantee));
    } else {
        let warns = |l: (LogLevel, Seq<char>)| l.0 == LogLevel::Warn;
        lemma_line_absent(h, warns, no_guarantee);
        lemma_line_absent(g, warns, no_guarantee);
        lemma_line_absent(d, warns, no_guarantee);
        lemma_line_absent(f, warns, no_guarantee);
        lemma_line_absent(m, warns, no_guarantee);
    }
    // The STARK guarantee of an SP1 proof.
    let stark = info("   • STARK proof with RISC-V execution"@);
    if proof.proof_type@ == "sp1"@ {
        assert(g[0] == stark);
        assert(g.contains(stark));
    } else {
        assert(names_stark(stark));
        let starks = |l: (LogLevel, Seq<char>)| names_stark(l);
        lemma_line_absent(h, starks, stark);
        lemma_line_absent(g, starks, stark);
        lemma_line_absent(d, starks, stark);
        lemma_line_absent(f, starks, stark);
        lemma_line_absent(m, starks, stark);
    }
    // The validity.
    let yes = info("   Proof Valid: "@ + "✅ YES"@);
    let no = info("   Proof Valid: "@ + "❌ NO"@);
    assert(("   Proof Valid: "@ + "✅ YES"@)[16] == '✅');
    assert(("   Proof Valid: "@ + "❌ NO"@)[16] == '❌');
    assert(yes != no);
    assert(("   Proof Valid: "@ + "✅ YES"@)[3] == 'P' && ("   Proof Valid: "@ + "✅ YES"@)[9] == 'V');
    assert(("   Proof Valid: "@ + "❌ NO"@)[3] == 'P' && ("   Proof Valid: "@ + "❌ NO"@)[9] == 'V');
    assert(states_validity(yes) && states_validity(no));
    let valids = |l: (LogLevel, Seq<char>)| states_validity(l);
    lemma_line_absent(h, valids, yes);
    lemma_line_absent(g, valids, yes);
    lemma_line_absent(f, valids, yes);
    lemma_line_absent(m, valids, yes);
    lemma_line_absent(h, valids, no);
    lemma_line_absent(g, valids, no);
    lemma_line_absent(f, valids, no);
    lemma_line_absent(m, valids, no);
    assert(d.contains(d[3]));
    let shown = d[3];
    let other = if proof.is_valid { no } else { yes };
    assert(shown != other);
    assert forall|j: int| 0 <= j < d.len() implies d[j] != other by {
        if j != 3 {
            assert(!states_validity(d[j]));
        }
    }
    let is_other = |l: (LogLevel, Seq<char>)| l == other;
    lemma_line_absent(d, is_other, other);
}

} // verus!
