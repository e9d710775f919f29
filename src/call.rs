use vstd::prelude::*;
use vstd::slice::slice_to_vec;
use vstd::utf8::encode_utf8;
use crate::outcome::SandboxError;
use crate::problem::Function;

verus! {

/// The instruction budget of one guest call.
pub const FUEL_BUDGET: u64 = 500_000;

/// Where in guest memory a parameter is written before the call.
pub const PARAM_OFFSET: usize = 0;

/// The largest value of a guest `i32`.
pub const I32_MAX: usize = 0x7fff_ffff;

/// The length in bytes of the UTF-8 encoding of `s`.
pub open spec fn encoded_len(s: Seq<char>) -> int {
    (encode_utf8(s).len() as usize) as int
}

/// Why a guest cannot be called for `function` with `param`, if it cannot: a
/// parameterised problem needs a parameter, and one whose length fits a guest `i32`.
pub open spec fn call_error(function: Function, param: Option<String>) -> Option<SandboxError> {
    if function == Function::Param {
        match param {
            None => Some(SandboxError::MissingParameter),
            Some(p) => if encoded_len(p@) > I32_MAX {
                Some(SandboxError::ParameterTooLong)
            } else {
                None
            },
        }
    } else {
        None
    }
}

/// How a guest is to be called: the budget its store gets, what is written into its
/// memory beforehand (an offset and bytes), and the arguments of its entry point
/// (`None` for the entry point that takes none). Only `plan_call` makes one.
pub struct GuestCall {
    fuel: u64,
    write: Option<(usize, Vec<u8>)>,
    args: Option<(i32, i32)>,
}

impl GuestCall {
    /// The budget the store gets.
    pub closed spec fn spec_fuel(&self) -> u64 {
        self.fuel
    }

    /// What is written into guest memory before the call.
    pub closed spec fn spec_write(&self) -> Option<(usize, Seq<u8>)> {
        match self.write {
            Some((at, bytes)) => Some((at, bytes@)),
            None => None,
        }
    }

    /// The arguments of the entry point; `None` for the entry point without any.
    pub closed spec fn spec_args(&self) -> Option<(i32, i32)> {
        self.args
    }

    /// The budget the store gets.
    pub fn fuel(&self) -> (r: u64)
        ensures
            r == self.spec_fuel(),
    {
        self.fuel
    }

    /// The arguments of the entry point; `None` for the entry point without any.
    pub fn args(&self) -> (r: Option<(i32, i32)>)
        ensures
            r == self.spec_args(),
    {
        self.args
    }

    /// What is written into guest memory before the call: an offset and bytes.
    pub fn write(&self) -> (r: Option<(usize, &[u8])>)
        ensures
            r matches Some((at, bytes)) ==> self.spec_write() == Some((at, bytes@)),
            r is None ==> self.spec_write() is None,
    {
        match &self.write {
            Some((at, bytes)) => Some((*at, bytes.as_slice())),
            None => None,
        }
    }
}

/// The arguments with which a parameterised guest's entry point is called: the
/// parameter's offset in guest memory and its length in bytes.
pub fn param_args(param: &Option<String>) -> (r: Result<(i32, i32), SandboxError>)
    ensures
        param is None ==> r == Err::<(i32, i32), SandboxError>(SandboxError::MissingParameter),
        param is Some && encoded_len(param->0@) > I32_MAX ==> r == Err::<(i32, i32), SandboxError>(
            SandboxError::ParameterTooLong,
        ),
        param is Some && encoded_len(param->0@) <= I32_MAX ==> r == Ok::<(i32, i32), SandboxError>(
            (PARAM_OFFSET as i32, encoded_len(param->0@) as i32),
        ),
{
    match param {
        None => Err(SandboxError::MissingParameter),
        Some(p) => {
            let len = p.as_str().len();
            if len > I32_MAX {
                Err(SandboxError::ParameterTooLong)
            } else {
                Ok((PARAM_OFFSET as i32, len as i32))
            }
        },
    }
}

/// Plans the guest call for `function`: the fixed budget; for a parameterised problem,
/// the parameter's UTF-8 bytes written at the parameter offset and the entry point
/// called with that offset and length; otherwise no write and the entry point called
/// with nothing.
pub fn plan_call(function: Function, param: &Option<String>) -> (r: Result<GuestCall, SandboxError>)
    ensures
        call_error(function, *param) matches Some(e) ==> (r matches Err(f) && f == e),
        call_error(function, *param) is None ==> (r matches Ok(c) && c.spec_fuel() == FUEL_BUDGET),
        call_error(function, *param) is None && function == Function::Param ==> (r matches Ok(c)
            && c.spec_write() == Some((PARAM_OFFSET, encode_utf8(param->0@))) && c.spec_args()
            == Some((PARAM_OFFSET as i32, encoded_len(param->0@) as i32))),
        function != Function::Param ==> (r matches Ok(c) && c.spec_write() is None
            && c.spec_args() is None),
{
    if function.takes_parameter() {
        let p = match param {
            Some(p) => p,
            None => {
                return Err(SandboxError::MissingParameter);
            },
        };
        let args = match param_args(param) {
            Ok(a) => a,
            Err(e) => {
                return Err(e);
            },
        };
        let bytes = slice_to_vec(p.as_str().as_bytes());
        Ok(GuestCall { fuel: FUEL_BUDGET, write: Some((PARAM_OFFSET, bytes)), args: Some(args) })
    } else {
        Ok(GuestCall { fuel: FUEL_BUDGET, write: None, args: None })
    }
}

} // verus!
