use vstd::prelude::*;

use crate::error::InvokeError;
use crate::home::{path_bytes, DistPath};
use crate::marshal::{
    all_nul_free, argv, byte_strings, c_string_of, c_strings_of, has_interior_nul,
    is_first_nul_of, lemma_first_nul_unique, nul_terminated, spec_argv,
};

verus! {

/// Everything the compiler entry point is called with: the executable path
/// (when known), `java.home`, the argument count and table, and whether to
/// stop before code generation. Every string is in C-string form.
#[derive(Debug, PartialEq, Eq)]
pub struct CompileRequest {
    pub check_only: bool,
    pub bin: Option<Vec<u8>>,
    pub home: Vec<u8>,
    pub argc: i32,
    pub argv: Vec<Vec<u8>>,
}

/// What a compiler call holds: whether to stop before code generation, the
/// executable path, `java.home`, the argument count and the arguments.
pub type RequestView = (bool, Option<Seq<u8>>, Seq<u8>, i32, Seq<Seq<u8>>);

/// The contents of `request`.
pub open spec fn request_view(request: CompileRequest) -> RequestView {
    (
        request.check_only,
        opt_bytes(request.bin),
        request.home@,
        request.argc,
        byte_strings(request.argv@),
    )
}

/// The call for `check_only`, the executable path `bin`, the platform root
/// `home` and the marshalled arguments `argv`: every path in C-string form,
/// and the argument count as the image's 32-bit `int`.
pub open spec fn spec_request(
    check_only: bool,
    bin: Option<Seq<u8>>,
    home: Seq<u8>,
    argv: Seq<Seq<u8>>,
) -> RequestView {
    (
        check_only,
        match bin {
            Some(x) => Some(c_string_of(x)),
            None => None,
        },
        c_string_of(home),
        argv.len() as i32,
        argv,
    )
}

/// `request` is the call for `check_only`, `bin`, `home` and `argv`.
pub open spec fn is_request_for(
    request: CompileRequest,
    check_only: bool,
    bin: Option<Seq<u8>>,
    home: Seq<u8>,
    argv: Seq<Seq<u8>>,
) -> bool {
    request_view(request) == spec_request(check_only, bin, home, argv)
}

/// The call that `invoke_with` makes against the explicit root `home`, or
/// `None` when an argument carries an interior NUL.
pub open spec fn spec_plan_invoke_with(
    check_only: bool,
    home: Seq<u8>,
    args: Seq<Seq<u8>>,
    bin: Option<Seq<u8>>,
) -> Option<RequestView> {
    if all_nul_free(args) {
        Some(spec_request(check_only, bin, home, c_strings_of(args)))
    } else {
        None
    }
}

/// The call that `invoke` makes with the resolved dist root `home`, or `None`
/// when an argument carries an interior NUL or no root was found.
pub open spec fn spec_plan_invoke(
    check_only: bool,
    args: Seq<Seq<u8>>,
    home: Option<Seq<Seq<u8>>>,
    bin: Option<Seq<u8>>,
) -> Option<RequestView> {
    if all_nul_free(args) && home is Some {
        Some(spec_request(check_only, bin, path_bytes(home->0), c_strings_of(args)))
    } else {
        None
    }
}

/// The optional view of an optional dist root.
pub open spec fn opt_path(home: Option<DistPath>) -> Option<Seq<Seq<u8>>> {
    match home {
        Some(h) => Some(h@),
        None => None,
    }
}

/// The optional bytes held by an optional byte vector.
pub open spec fn opt_bytes(v: Option<Vec<u8>>) -> Option<Seq<u8>> {
    match v {
        Some(x) => Some(x@),
        None => None,
    }
}

/// Assemble the compiler call from already-marshalled arguments. The
/// executable path and the platform root are paths, which cannot hold a NUL.
pub fn compile_request(check_only: bool, bin: Option<Vec<u8>>, home: &[u8], argv: Vec<Vec<u8>>) -> (request: CompileRequest)
    requires
        bin matches Some(b) ==> !has_interior_nul(b@),
        !has_interior_nul(home@),
    ensures
        is_request_for(request, check_only, opt_bytes(bin), home@, byte_strings(argv@)),
        argv@.len() <= i32::MAX ==> request.argc as int == argv@.len(),
        request.home@ == home@ + seq![0u8],
{
    let bin_c = match bin {
        Some(b) => match nul_terminated(b.as_slice()) {
            Some(c) => Some(c),
            None => None,
        },
        None => None,
    };
    let home_c = match nul_terminated(home) {
        Some(c) => c,
        None => Vec::new(),
    };
    #[verifier::truncate]
    let argc = argv.len() as i32;
    proof {
        lemma_request_carries_its_arguments(check_only, opt_bytes(bin), home@, byte_strings(argv@));
    }
    CompileRequest { check_only, bin: bin_c, home: home_c, argc, argv }
}

/// Invoke's decisions against an explicit platform-image root `home`
/// (trusted as-is): marshal `args`, then call the compiler.
pub fn plan_invoke_with(check_only: bool, home: &[u8], args: Vec<Vec<u8>>, bin: Option<Vec<u8>>) -> (res: Result<CompileRequest, InvokeError>)
    requires
        all_nul_free(byte_strings(args@)) ==> (bin matches Some(b) ==> !has_interior_nul(b@)),
        all_nul_free(byte_strings(args@)) ==> !has_interior_nul(home@),
    ensures
        res is Ok <==> all_nul_free(byte_strings(args@)),
        res matches Ok(request) ==> Some(request_view(request)) == spec_plan_invoke_with(
            check_only,
            home@,
            byte_strings(args@),
            opt_bytes(bin),
        ),
        res matches Ok(request) ==> is_request_for(
            request,
            check_only,
            opt_bytes(bin),
            home@,
            c_strings_of(byte_strings(args@)),
        ),
        res matches Err(e) ==> (e matches InvokeError::NulArg(n) && is_first_nul_of(
            n.arg@,
            byte_strings(args@),
        )),
{
    match argv(args) {
        Err(e) => Err(InvokeError::NulArg(e)),
        Ok(v) => Ok(compile_request(check_only, bin, home, v)),
    }
}

/// Invoke's decisions for a binary that locates its own platform root.
///
/// `exe` is the running executable's path and `home` the dist root resolved
/// from it by [`crate::platform_home`]; `bin` is the executable path handed to
/// the compiler. Caller errors (bad arguments) come before environment errors:
/// an interior NUL is reported whatever the environment holds.
pub fn plan_invoke(
    check_only: bool,
    args: Vec<Vec<u8>>,
    exe: Option<Vec<u8>>,
    home: Option<DistPath>,
    bin: Option<Vec<u8>>,
) -> (res: Result<CompileRequest, InvokeError>)
    requires
        all_nul_free(byte_strings(args@)) && home is Some ==> (bin matches Some(b)
            ==> !has_interior_nul(b@)),
        all_nul_free(byte_strings(args@)) ==> (home matches Some(h) ==> !has_interior_nul(
            path_bytes(h@),
        )),
    ensures
        res matches Ok(request) ==> Some(request_view(request)) == spec_plan_invoke(
            check_only,
            byte_strings(args@),
            opt_path(home),
            opt_bytes(bin),
        ),
        !all_nul_free(byte_strings(args@)) ==> (res matches Err(InvokeError::NulArg(n))
            && is_first_nul_of(n.arg@, byte_strings(args@))),
        all_nul_free(byte_strings(args@)) && home is None ==> res == Err::<
            CompileRequest,
            InvokeError,
        >(InvokeError::NoPlatformImage { exe }),
        all_nul_free(byte_strings(args@)) && home is Some ==> (res matches Ok(request)
            && is_request_for(
            request,
            check_only,
            opt_bytes(bin),
            path_bytes(home->0@),
            c_strings_of(byte_strings(args@)),
        )),
{
    let argv_owned = match argv(args) {
        Err(e) => {
            return Err(InvokeError::NulArg(e));
        },
        Ok(v) => v,
    };
    match home {
        None => Err(InvokeError::NoPlatformImage { exe }),
        Some(root) => {
            let bytes = root.to_bytes();
            Ok(compile_request(check_only, bin, bytes.as_slice(), argv_owned))
        },
    }
}

/// The compiler call counts exactly the marshalled arguments it carries (any
/// command line short of `i32::MAX` arguments), hands them over in order and
/// unchanged, and hands over `java.home` and the executable path as their own
/// bytes with one terminating NUL.
pub proof fn lemma_request_carries_its_arguments(
    check_only: bool,
    bin: Option<Seq<u8>>,
    home: Seq<u8>,
    argv: Seq<Seq<u8>>,
)
    ensures
        argv.len() <= i32::MAX ==> spec_request(check_only, bin, home, argv).3 as int == argv.len(),
        spec_request(check_only, bin, home, argv).4 == argv,
        spec_request(check_only, bin, home, argv).0 == check_only,
        spec_request(check_only, bin, home, argv).2 == home + seq![0u8],
        bin matches Some(b) ==> spec_request(check_only, bin, home, argv).1 == Some(b + seq![0u8]),
        bin is None ==> spec_request(check_only, bin, home, argv).1 is None,
{
    assert(c_string_of(home) =~= home + seq![0u8]);
    if let Some(b) = bin {
        assert(c_string_of(b) =~= b + seq![0u8]);
    }
}

/// `invoke` with a resolved dist root makes the same compiler call as
/// `invoke_with` against that root's bytes (the bytes that
/// [`DistPath::to_bytes`] spells), and both refuse the same command lines.
pub proof fn lemma_invoke_is_invoke_with_on_resolved_root(
    check_only: bool,
    args: Seq<Seq<u8>>,
    root: Seq<Seq<u8>>,
    bin: Option<Seq<u8>>,
)
    ensures
        spec_plan_invoke(check_only, args, Some(root), bin) == spec_plan_invoke_with(
            check_only,
            path_bytes(root),
            args,
            bin,
        ),
{
}

/// `invoke_with` is marshalling followed by the call: it refuses exactly the
/// command lines that [`argv`] refuses, reporting the same argument, and
/// otherwise calls the compiler with what [`argv`] returns.
pub proof fn lemma_invoke_with_is_argv_then_call(
    check_only: bool,
    home: Seq<u8>,
    args: Seq<Seq<u8>>,
    bin: Option<Seq<u8>>,
)
    ensures
        spec_plan_invoke_with(check_only, home, args, bin) == match spec_argv(args) {
            None => None,
            Some(v) => Some(spec_request(check_only, bin, home, v)),
        },
        forall|a: Seq<u8>, b: Seq<u8>|
            is_first_nul_of(a, args) && is_first_nul_of(b, args) ==> a == b,
{
    assert forall|a: Seq<u8>, b: Seq<u8>|
        is_first_nul_of(a, args) && is_first_nul_of(b, args) implies a == b by {
        lemma_first_nul_unique(args, a, b);
    }
}

} // verus!
