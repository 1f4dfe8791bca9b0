//! The decisions made when programs are built: the options handed to the
//! compiler, and which error a failed creation or build reports.
use vstd::prelude::*;
use crate::cl;
use crate::base::error::{Error, Result};
use crate::base::error_codes::{ErrorType, error_code, is_error_code};
use crate::base::words::{chars_of, string_from_chars};

verus! {

/// The compiler option that keeps the information on kernel arguments.
pub open spec fn arg_info_option() -> Seq<char> {
    "-cl-kernel-arg-info"@
}

/// The NUL-terminated options with which a program is built: the user's
/// options followed by a space and the option that keeps kernel argument
/// information, or that option alone.
pub fn build_options(options: Option<&str>) -> (s: String)
    ensures
        s@ == match options {
            Some(o) => o@ + seq![' '] + arg_info_option() + seq!['\0'],
            None => arg_info_option() + seq!['\0'],
        },
{
    let extra = "-cl-kernel-arg-info";
    let mut v: Vec<char> = match options {
        Some(o) => {
            let mut v = chars_of(o);
            v.push(' ');
            v
        },
        None => Vec::new(),
    };
    let ghost prefix = v@;
    let tail = chars_of(extra);
    let mut i: usize = 0;
    while i < tail.len()
        invariant
            i <= tail@.len(),
            v@ == prefix + tail@.take(i as int),
        decreases tail@.len() - i,
    {
        v.push(tail[i]);
        proof {
            assert(tail@.take(i as int + 1) =~= tail@.take(i as int).push(tail@[i as int]));
        }
        i = i + 1;
    }
    v.push('\0');
    proof {
        assert(tail@.take(tail@.len() as int) =~= tail@);
        assert(extra@ == arg_info_option());
        match options {
            Some(o) => {
                assert(v@ =~= o@ + seq![' '] + arg_info_option() + seq!['\0']);
            },
            None => {
                assert(v@ =~= arg_info_option() + seq!['\0']);
            },
        }
    }
    string_from_chars(v.as_slice())
}

/// Whether no binary status before index `i` reports a failure.
pub open spec fn all_succeeded_before(statuses: Seq<i32>, i: int) -> bool {
    forall|j: int| 0 <= j < i ==> statuses[j] == cl::CL_SUCCESS
}

/// The outcome of creating a program from one binary per device: `err` is
/// what the call returned, `statuses` the status of each device's binary.
/// An `InvalidValue` from the call is explained by the first device whose
/// binary failed, when there is one.
pub fn binary_program_status(err: i32, statuses: &[i32]) -> (r: Result<()>)
    requires
        err == cl::CL_SUCCESS || is_error_code(err),
        forall|i: int| 0 <= i < statuses@.len() ==> statuses@[i] == cl::CL_SUCCESS || is_error_code(
            #[trigger] statuses@[i],
        ),
    ensures
        err == cl::CL_SUCCESS <==> r is Ok,
        err != cl::CL_SUCCESS && err != cl::CL_INVALID_VALUE ==> (r matches Err(e) && error_code(e.ty)
            == err && e.desc is None),
        err == cl::CL_INVALID_VALUE ==> (r matches Err(e) && e.desc is None && ({
            ||| exists|i: int|
                0 <= i < statuses@.len() && #[trigger] statuses@[i] != cl::CL_SUCCESS
                    && all_succeeded_before(statuses@, i) && error_code(e.ty) == statuses@[i]
            ||| all_succeeded_before(statuses@, statuses@.len() as int) && e.ty == ErrorType::InvalidValue
        })),
{
    if err == cl::CL_SUCCESS {
        return Ok(());
    }
    if err != cl::CL_INVALID_VALUE {
        return Err(Error::from_code(err));
    }
    let mut i: usize = 0;
    while i < statuses.len()
        invariant
            i <= statuses@.len(),
            err == cl::CL_INVALID_VALUE,
            all_succeeded_before(statuses@, i as int),
            forall|k: int| 0 <= k < statuses@.len() ==> statuses@[k] == cl::CL_SUCCESS || is_error_code(
                #[trigger] statuses@[k],
            ),
        decreases statuses@.len() - i,
    {
        let status = statuses[i];
        if status != cl::CL_SUCCESS {
            let e = Error::from_code(status);
            assert(statuses@[i as int] != cl::CL_SUCCESS && all_succeeded_before(statuses@, i as int)
                && error_code(e.ty) == statuses@[i as int]);
            return Err(e);
        }
        i = i + 1;
    }
    Err(Error::from_type(ErrorType::InvalidValue))
}

/// The error of a failed build that returned `code`, given the build log of
/// each device (`None` where the runtime has none): the log of the first
/// device that has one describes the error.
pub fn build_error(code: i32, logs: &[Option<String>]) -> (e: Error)
    requires
        is_error_code(code),
    ensures
        error_code(e.ty) == code,
        (exists|i: int| 0 <= i < logs@.len() && #[trigger] logs@[i] is Some) ==> exists|i: int|
            0 <= i < logs@.len() && (forall|j: int| 0 <= j < i ==> #[trigger] logs@[j] is None) && (
            #[trigger] logs@[i] matches Some(l) && e.desc matches Some(d) && d@ == l@),
        (forall|i: int| 0 <= i < logs@.len() ==> #[trigger] logs@[i] is None) ==> e.desc is None,
{
    let mut i: usize = 0;
    while i < logs.len()
        invariant
            i <= logs@.len(),
            is_error_code(code),
            forall|j: int| 0 <= j < i ==> #[trigger] logs@[j] is None,
        decreases logs@.len() - i,
    {
        match &logs[i] {
            Some(log) => {
                let base = Error::from_code(code);
                let e = Error::new(base.ty, log.as_str());
                assert(logs@[i as int] matches Some(l) && e.desc matches Some(d) && d@ == l@);
                return e;
            },
            None => {},
        }
        i = i + 1;
    }
    Error::from_code(code)
}

} // verus!
