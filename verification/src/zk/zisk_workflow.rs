//! The course of a proof with the ZisK toolchain: the `cargo-zisk` commands
//! in order, their arguments, and what the outcome of each one decides.
use vstd::prelude::*;
use vstd::string::StringExecFns;

verus! {

/// A `cargo-zisk` command that a proof runs.
#[derive(Debug, Clone, Copy, PartialEq, Eq, Structural)]
pub enum ZiskStage {
    /// Builds the guest program.
    Build,
    /// Sets up the ROM of the built program.
    RomSetup,
    /// Proves the program on its input (and checks the proof).
    Prove,
    /// Verifies the proof files.
    Verify,
}

/// Why a proof with the ZisK toolchain stopped without a result.
#[derive(Debug, Clone, Copy, PartialEq, Eq, Structural)]
pub enum ZiskFailure {
    /// `cargo-zisk build` failed.
    BuildFailed,
    /// `cargo-zisk prove` failed.
    ProofFailed,
}

/// What follows a command of a proof.
#[derive(Debug, Clone, Copy, PartialEq, Eq, Structural)]
pub enum ZiskNext {
    /// Run the given command.
    Run(ZiskStage),
    /// Give up with the given failure.
    Stop(ZiskFailure),
    /// The proof is done; the flag says whether it verified.
    Finish(bool),
}

/// The command that a proof starts with.
pub open spec fn first_stage() -> ZiskStage {
    ZiskStage::Build
}

/// What follows a command, by whether it succeeded: a failed build or
/// proof stops, a failed ROM setup does not (the ROM may be set up
/// already), and the verification decides whether the proof is valid.
pub open spec fn zisk_next(stage: ZiskStage, succeeded: bool) -> ZiskNext {
    match stage {
        ZiskStage::Build => if succeeded {
            ZiskNext::Run(ZiskStage::RomSetup)
        } else {
            ZiskNext::Stop(ZiskFailure::BuildFailed)
        },
        ZiskStage::RomSetup => ZiskNext::Run(ZiskStage::Prove),
        ZiskStage::Prove => if succeeded {
            ZiskNext::Run(ZiskStage::Verify)
        } else {
            ZiskNext::Stop(ZiskFailure::ProofFailed)
        },
        ZiskStage::Verify => ZiskNext::Finish(succeeded),
    }
}

/// The command that a proof starts with.
pub fn first_zisk_stage() -> (stage: ZiskStage)
    ensures
        stage == first_stage(),
{
    ZiskStage::Build
}

/// What follows `stage` after it succeeded or failed.
pub fn next_zisk_step(stage: ZiskStage, succeeded: bool) -> (next: ZiskNext)
    ensures
        next == zisk_next(stage, succeeded),
{
    match stage {
        ZiskStage::Build => if succeeded {
            ZiskNext::Run(ZiskStage::RomSetup)
        } else {
            ZiskNext::Stop(ZiskFailure::BuildFailed)
        },
        ZiskStage::RomSetup => ZiskNext::Run(ZiskStage::Prove),
        ZiskStage::Prove => if succeeded {
            ZiskNext::Run(ZiskStage::Verify)
        } else {
            ZiskNext::Stop(ZiskFailure::ProofFailed)
        },
        ZiskStage::Verify => ZiskNext::Finish(succeeded),
    }
}

/// Where a whole proof ends, given whether each command would succeed:
/// the steps followed from the first command until one stops or finishes.
pub open spec fn zisk_run(build_ok: bool, rom_ok: bool, prove_ok: bool, verify_ok: bool) -> ZiskNext {
    let outcome = |stage: ZiskStage|
        match stage {
            ZiskStage::Build => build_ok,
            ZiskStage::RomSetup => rom_ok,
            ZiskStage::Prove => prove_ok,
            ZiskStage::Verify => verify_ok,
        };
    let after_build = zisk_next(first_stage(), outcome(first_stage()));
    match after_build {
        ZiskNext::Run(s1) => match zisk_next(s1, outcome(s1)) {
            ZiskNext::Run(s2) => match zisk_next(s2, outcome(s2)) {
                ZiskNext::Run(s3) => zisk_next(s3, outcome(s3)),
                other => other,
            },
            other => other,
        },
        other => other,
    }
}

/// Every proof runs its commands in the order build, ROM setup, prove,
/// verify, and ends after at most those four: it stops when the build or
/// the proof fails, goes on whether or not the ROM setup succeeds, and is
/// valid exactly when the verification succeeds.
pub proof fn lemma_zisk_run_outcome(build_ok: bool, rom_ok: bool, prove_ok: bool, verify_ok: bool)
    ensures
        zisk_run(build_ok, rom_ok, prove_ok, verify_ok) == (if !build_ok {
            ZiskNext::Stop(ZiskFailure::BuildFailed)
        } else if !prove_ok {
            ZiskNext::Stop(ZiskFailure::ProofFailed)
        } else {
            ZiskNext::Finish(verify_ok)
        }),
{
}

/// The directory of the ZisK proving key under the home directory `home`.
pub open spec fn proving_key_dir(home: Seq<char>) -> Seq<char> {
    home + "/.zisk/provingKey"@
}

/// The ZisK witness library under the home directory `home`.
pub open spec fn witness_library(home: Seq<char>) -> Seq<char> {
    home + "/.zisk/bin/libzisk_witness.so"@
}

/// The texts of a sequence of strings.
pub open spec fn texts(strings: Seq<String>) -> Seq<Seq<char>> {
    strings.map_values(|s: String| s@)
}

/// The arguments of `cargo-zisk` for a command, run in the guest project's
/// directory: the program at
/// `target/riscv64ima-zisk-zkvm-elf/release/zisk-tx-proof`, the key and the
/// witness library under `home`, the input at `build/input.bin`, the proof
/// written to `proof`, and the proof and public-value files to verify.
pub open spec fn zisk_args(
    stage: ZiskStage,
    home: Seq<char>,
    proof_file: Seq<char>,
    publics_file: Seq<char>,
) -> Seq<Seq<char>> {
    match stage {
        ZiskStage::Build => seq!["build"@, "--release"@],
        ZiskStage::RomSetup => seq![
            "rom-setup"@,
            "-e"@,
            "target/riscv64ima-zisk-zkvm-elf/release/zisk-tx-proof"@,
            "-k"@,
            proving_key_dir(home),
        ],
        ZiskStage::Prove => seq![
            "prove"@,
            "-e"@,
            "target/riscv64ima-zisk-zkvm-elf/release/zisk-tx-proof"@,
            "-i"@,
            "build/input.bin"@,
            "-w"@,
            witness_library(home),
            "-k"@,
            proving_key_dir(home),
            "-o"@,
            "proof"@,
            "-a"@,
            "-y"@,
        ],
        ZiskStage::Verify => seq!["verify"@, "-p"@, proof_file, "-u"@, publics_file],
    }
}

/// Appends `text` to `args`.
fn push_arg(args: &mut Vec<String>, text: &str)
    ensures
        texts(final(args)@) == texts(old(args)@).push(text@),
{
    args.push(String::from_str(text));
    assert(texts(args@) =~= texts(old(args)@).push(text@));
}

/// Appends `prefix` followed by `suffix` to `args`.
fn push_joined_arg(args: &mut Vec<String>, prefix: &str, suffix: &str)
    ensures
        texts(final(args)@) == texts(old(args)@).push(prefix@ + suffix@),
{
    let mut text = String::from_str(prefix);
    text.append(suffix);
    args.push(text);
    assert(texts(args@) =~= texts(old(args)@).push(prefix@ + suffix@));
}

/// The arguments of `cargo-zisk` for `stage`, with the home directory and
/// the proof files that the command needs.
pub fn zisk_command_args(stage: ZiskStage, home: &str, proof_file: &str, publics_file: &str) -> (args:
    Vec<String>)
    ensures
        texts(args@) == zisk_args(stage, home@, proof_file@, publics_file@),
{
    let mut args: Vec<String> = Vec::new();
    match stage {
        ZiskStage::Build => {
            push_arg(&mut args, "build");
            push_arg(&mut args, "--release");
        },
        ZiskStage::RomSetup => {
            push_arg(&mut args, "rom-setup");
            push_arg(&mut args, "-e");
            push_arg(&mut args, "target/riscv64ima-zisk-zkvm-elf/release/zisk-tx-proof");
            push_arg(&mut args, "-k");
            push_joined_arg(&mut args, home, "/.zisk/provingKey");
        },
        ZiskStage::Prove => {
            push_arg(&mut args, "prove");
            push_arg(&mut args, "-e");
            push_arg(&mut args, "target/riscv64ima-zisk-zkvm-elf/release/zisk-tx-proof");
            push_arg(&mut args, "-i");
            push_arg(&mut args, "build/input.bin");
            push_arg(&mut args, "-w");
            push_joined_arg(&mut args, home, "/.zisk/bin/libzisk_witness.so");
            push_arg(&mut args, "-k");
            push_joined_arg(&mut args, home, "/.zisk/provingKey");
            push_arg(&mut args, "-o");
            push_arg(&mut args, "proof");
            push_arg(&mut args, "-a");
            push_arg(&mut args, "-y");
        },
        ZiskStage::Verify => {
            push_arg(&mut args, "verify");
            push_arg(&mut args, "-p");
            push_arg(&mut args, proof_file);
            push_arg(&mut args, "-u");
            push_arg(&mut args, publics_file);
        },
    }
    assert(texts(args@) =~= zisk_args(stage, home@, proof_file@, publics_file@));
    args
}

} // verus!
