use vstd::prelude::*;

use crate::error::NulArgError;

verus! {

/// A byte string carries an interior NUL when any of its bytes is zero; such
/// a string has no C-string form.
pub open spec fn has_interior_nul(bytes: Seq<u8>) -> bool {
    bytes.contains(0u8)
}

/// The C-string form of a NUL-free byte string: its bytes followed by one NUL.
pub open spec fn c_string_of(bytes: Seq<u8>) -> Seq<u8> {
    bytes.push(0u8)
}

/// No argument of the command line carries an interior NUL.
pub open spec fn all_nul_free(args: Seq<Seq<u8>>) -> bool {
    forall|i: int| 0 <= i < args.len() ==> !has_interior_nul(#[trigger] args[i])
}

/// `i` is the position of the first argument that carries an interior NUL.
pub open spec fn is_first_nul_arg(args: Seq<Seq<u8>>, i: int) -> bool {
    &&& 0 <= i < args.len()
    &&& has_interior_nul(args[i])
    &&& all_nul_free(args.take(i))
}

/// `arg` is the first argument of `args` that carries an interior NUL.
pub open spec fn is_first_nul_of(arg: Seq<u8>, args: Seq<Seq<u8>>) -> bool {
    exists|i: int| is_first_nul_arg(args, i) && arg == #[trigger] args[i]
}

/// The marshalled command line: every argument in its C-string form, in order.
pub open spec fn c_strings_of(args: Seq<Seq<u8>>) -> Seq<Seq<u8>> {
    args.map_values(|a: Seq<u8>| c_string_of(a))
}

/// The byte strings held by a vector of byte vectors.
pub open spec fn byte_strings(v: Seq<Vec<u8>>) -> Seq<Seq<u8>> {
    v.map_values(|a: Vec<u8>| a@)
}

/// The marshalled command line when no argument carries an interior NUL.
pub open spec fn spec_argv(args: Seq<Seq<u8>>) -> Option<Seq<Seq<u8>>> {
    if all_nul_free(args) {
        Some(c_strings_of(args))
    } else {
        None
    }
}

/// A command line has only one first argument carrying an interior NUL.
pub proof fn lemma_first_nul_unique(args: Seq<Seq<u8>>, a: Seq<u8>, b: Seq<u8>)
    requires
        is_first_nul_of(a, args),
        is_first_nul_of(b, args),
    ensures
        a == b,
{
    let i = choose|i: int| is_first_nul_arg(args, i) && a == #[trigger] args[i];
    let j = choose|j: int| is_first_nul_arg(args, j) && b == #[trigger] args[j];
    if i < j {
        assert(args.take(j)[i] == args[i]);
    } else if j < i {
        assert(args.take(i)[j] == args[j]);
    }
}

/// Copy `bytes` into a NUL-terminated allocation, or `None` when `bytes`
/// contains a NUL itself (which a C string cannot carry).
pub fn nul_terminated(bytes: &[u8]) -> (res: Option<Vec<u8>>)
    ensures
        res is None <==> has_interior_nul(bytes@),
        res matches Some(c) ==> c@ == c_string_of(bytes@),
{
    let n = bytes.len();
    let mut out: Vec<u8> = Vec::new();
    let mut i: usize = 0;
    while i < n
        invariant
            n == bytes@.len(),
            i <= n,
            out@ == bytes@.take(i as int),
            forall|j: int| 0 <= j < i ==> bytes@[j] != 0u8,
        decreases n - i,
    {
        let b = bytes[i];
        if b == 0 {
            return None;
        }
        out.push(b);
        i = i + 1;
        assert(out@ =~= bytes@.take(i as int));
    }
    assert(bytes@.take(n as int) =~= bytes@);
    out.push(0u8);
    Some(out)
}

/// Marshal `args` into the owned C strings that back the compiler's `argv`.
///
/// Every argument is copied into a NUL-terminated allocation, in order; a
/// single interior NUL anywhere aborts the whole marshalling, and the error
/// carries the first argument that holds one.
pub fn argv(args: Vec<Vec<u8>>) -> (res: Result<Vec<Vec<u8>>, NulArgError>)
    ensures
        res is Ok <==> all_nul_free(byte_strings(args@)),
        res matches Ok(v) ==> byte_strings(v@) == c_strings_of(byte_strings(args@)),
        res matches Ok(v) ==> spec_argv(byte_strings(args@)) == Some(byte_strings(v@)),
        res matches Err(e) ==> is_first_nul_of(e.arg@, byte_strings(args@)),
{
    let mut owned = args;
    let ghost orig = byte_strings(owned@);
    let n = owned.len();
    let mut out: Vec<Vec<u8>> = Vec::new();
    let mut i: usize = 0;
    while i < n
        invariant
            n == owned.len(),
            byte_strings(owned@) == orig,
            orig == byte_strings(args@),
            i <= n,
            byte_strings(out@) == c_strings_of(orig.take(i as int)),
            all_nul_free(orig.take(i as int)),
        decreases n - i,
    {
        assert(owned@[i as int]@ == orig[i as int]);
        match nul_terminated(owned[i].as_slice()) {
            Some(c) => {
                let ghost before = out@;
                out.push(c);
                proof {
                    assert(orig.take(i + 1) =~= orig.take(i as int).push(orig[i as int]));
                    assert(byte_strings(out@) =~= byte_strings(before).push(c@));
                    assert(c_strings_of(orig.take(i + 1)) =~= c_strings_of(orig.take(i as int)).push(
                        c_string_of(orig[i as int]),
                    ));
                    assert(all_nul_free(orig.take(i + 1)));
                }
                i = i + 1;
            },
            None => {
                let arg = owned.swap_remove(i);
                proof {
                    assert(is_first_nul_arg(orig, i as int));
                    assert(!all_nul_free(orig));
                    assert(arg@ == orig[i as int]);
                }
                return Err(NulArgError { arg });
            },
        }
    }
    proof {
        assert(orig.take(n as int) =~= orig);
    }
    Ok(out)
}

} // verus!
