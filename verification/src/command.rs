use vstd::prelude::*;

use crate::marshal::byte_strings;

verus! {

/// The subcommand word `check`.
pub open spec fn check_word() -> Seq<u8> {
    seq![99u8, 104u8, 101u8, 99u8, 107u8]
}

/// The subcommand word `compile`.
pub open spec fn compile_word() -> Seq<u8> {
    seq![99u8, 111u8, 109u8, 112u8, 105u8, 108u8, 101u8]
}

/// A `madura` command line: whether the compiler stops before code
/// generation, and the arguments handed to `javac` unchanged.
#[derive(Debug, PartialEq, Eq)]
pub struct Command {
    pub check_only: bool,
    pub args: Vec<Vec<u8>>,
}

/// What `madura <args>` runs: `madura check ...` is `javac` without code
/// generation, `madura compile ...` is an explicit alias for `madura ...`,
/// and any other command line goes to `javac` as it stands.
pub open spec fn spec_command(args: Seq<Seq<u8>>) -> (bool, Seq<Seq<u8>>) {
    if args.len() > 0 && args[0] == check_word() {
        (true, args.drop_first())
    } else if args.len() > 0 && args[0] == compile_word() {
        (false, args.drop_first())
    } else {
        (false, args)
    }
}

/// `madura check` accepts identical arguments to `madura compile`, and hands
/// them to `javac` unchanged; `madura compile` is an alias for plain `madura`
/// on any command line that does not itself start with a subcommand word.
pub proof fn lemma_subcommands(rest: Seq<Seq<u8>>)
    ensures
        spec_command(seq![check_word()] + rest) == (true, rest),
        spec_command(seq![compile_word()] + rest) == (false, rest),
        !(rest.len() > 0 && (rest[0] == check_word() || rest[0] == compile_word()))
            ==> spec_command(seq![compile_word()] + rest) == spec_command(rest),
{
    assert((seq![check_word()] + rest).drop_first() =~= rest);
    assert((seq![compile_word()] + rest).drop_first() =~= rest);
    assert((seq![check_word()] + rest)[0] == check_word());
    assert((seq![compile_word()] + rest)[0] == compile_word());
    assert(check_word() != compile_word()) by {
        assert(check_word().len() != compile_word().len());
    }
}

/// Whether two byte strings are equal.
fn bytes_equal(a: &[u8], b: &[u8]) -> (res: bool)
    ensures
        res == (a@ == b@),
{
    if a.len() != b.len() {
        return false;
    }
    let n = a.len();
    let mut i: usize = 0;
    while i < n
        invariant
            n == a@.len(),
            n == b@.len(),
            i <= n,
            forall|j: int| 0 <= j < i ==> a@[j] == b@[j],
        decreases n - i,
    {
        if a[i] != b[i] {
            return false;
        }
        i = i + 1;
    }
    assert(a@ =~= b@);
    true
}

/// Split off the `check` / `compile` subcommand of a `madura` command line.
pub fn parse_command(args: Vec<Vec<u8>>) -> (cmd: Command)
    ensures
        (cmd.check_only, byte_strings(cmd.args@)) == spec_command(byte_strings(args@)),
{
    let mut args = args;
    let check = vec![99u8, 104u8, 101u8, 99u8, 107u8];
    let compile = vec![99u8, 111u8, 109u8, 112u8, 105u8, 108u8, 101u8];
    assert(check@ =~= check_word());
    assert(compile@ =~= compile_word());
    let ghost a = byte_strings(args@);
    if args.len() == 0 {
        return Command { check_only: false, args };
    }
    assert(args@[0]@ == a[0]);
    let is_check = bytes_equal(args[0].as_slice(), check.as_slice());
    let is_compile = bytes_equal(args[0].as_slice(), compile.as_slice());
    if is_check || is_compile {
        let _word = args.remove(0);
        assert(byte_strings(args@) =~= a.drop_first());
        Command { check_only: is_check, args }
    } else {
        Command { check_only: false, args }
    }
}

} // verus!
