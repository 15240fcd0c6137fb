use crate::base::unit_value::UnitValue;
use vstd::prelude::*;

verus! {

/// An arbitrary transformation from one unit value into another one, intended to be implemented
/// by using some form of expression language.
pub trait Transformation {
    /// Applies the transformation to `input_value`. `output_value` is the value that the
    /// receiving side has at the moment.
    ///
    /// Should execute fast. A transformation that cannot be applied returns an error.
    fn transform(&self, input_value: UnitValue, output_value: UnitValue) -> Result<
        UnitValue,
        &'static str,
    >;
}

/// Tells whether `result` may come out when the given transformation, if there is one, is
/// applied to `input`: what the transformation returns, or `input` itself where there is no
/// transformation or where it fails. What comes out is a unit value in any case.
pub open spec fn may_yield<T: Transformation>(
    transformation: Option<T>,
    input: UnitValue,
    output: UnitValue,
    result: UnitValue,
) -> bool {
    &&& result.inv()
    &&& match transformation {
        None => result == input,
        Some(t) => exists|returned: Result<UnitValue, &'static str>|
            {
                &&& #[trigger] call_ensures(T::transform, (&t, input, output), returned)
                &&& result == match returned {
                    Ok(v) => v,
                    Err(_) => input,
                }
            },
    }
}

/// Applies the given transformation, if there is one, to `input`. A failing transformation
/// leaves the input as it is.
pub fn apply<T: Transformation>(transformation: &Option<T>, input: UnitValue, output: UnitValue) -> (r:
    UnitValue)
    ensures
        may_yield(*transformation, input, output, r),
{
    let result = match transformation {
        None => input,
        Some(t) => {
            match t.transform(input, output) {
                Ok(v) => v,
                Err(_) => input,
            }
        },
    };
    proof {
        use_type_invariant(result);
    }
    result
}

} // verus!
