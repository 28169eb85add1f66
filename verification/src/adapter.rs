//! The adapter layer: given the declared parameter kinds of a native
//! function, extraction fetches each non-reference parameter's dynamic
//! value at its original positional index and checks it against the
//! declared kind, aborting the invocation on the first missing or
//! mismatched argument — before the native function runs.

use vstd::prelude::*;
use vstd::string::StringExecFns;
use crate::error::{Error, ErrorView};
use crate::store::ArgStore;
use crate::value::{
    spec_to_bool, spec_to_bytes, spec_to_i16, spec_to_i32, spec_to_i64, spec_to_i8,
    spec_to_number_bits, spec_to_text, spec_to_u16, spec_to_u32, spec_to_u8, DataType, Value,
    ValueView,
};

verus! {

/// The declared kind of one parameter of a native function, in declaration
/// order. `Reference` marks a borrowed parameter: it is supplied by ambient
/// invocation context, never by the argument store, and extraction skips
/// it while still counting its position.
#[derive(Debug, Clone, Copy, PartialEq, Eq, Structural)]
pub enum ParamKind {
    Int64,
    Int32,
    Int16,
    Int8,
    UInt32,
    UInt16,
    UInt8,
    Number,
    Boolean,
    Text,
    Bytes,
    Reference,
}

/// What checking one fetched value against a declared kind yields: the
/// value itself when its variant satisfies the kind's coercion, or exactly
/// the error that coercion would raise. A `Reference` kind is never
/// checked; extraction skips it first.
pub open spec fn spec_check(kind: ParamKind, v: ValueView) -> Result<ValueView, ErrorView> {
    match kind {
        ParamKind::Int64 => match spec_to_i64(v) {
            Ok(_) => Ok(v),
            Err(e) => Err(e),
        },
        ParamKind::Int32 => match spec_to_i32(v) {
            Ok(_) => Ok(v),
            Err(e) => Err(e),
        },
        ParamKind::Int16 => match spec_to_i16(v) {
            Ok(_) => Ok(v),
            Err(e) => Err(e),
        },
        ParamKind::Int8 => match spec_to_i8(v) {
            Ok(_) => Ok(v),
            Err(e) => Err(e),
        },
        ParamKind::UInt32 => match spec_to_u32(v) {
            Ok(_) => Ok(v),
            Err(e) => Err(e),
        },
        ParamKind::UInt16 => match spec_to_u16(v) {
            Ok(_) => Ok(v),
            Err(e) => Err(e),
        },
        ParamKind::UInt8 => match spec_to_u8(v) {
            Ok(_) => Ok(v),
            Err(e) => Err(e),
        },
        ParamKind::Number => match spec_to_number_bits(v) {
            Ok(_) => Ok(v),
            Err(e) => Err(e),
        },
        ParamKind::Boolean => match spec_to_bool(v) {
            Ok(_) => Ok(v),
            Err(e) => Err(e),
        },
        ParamKind::Text => match spec_to_text(v) {
            Ok(_) => Ok(v),
            Err(e) => Err(e),
        },
        ParamKind::Bytes => match spec_to_bytes(v) {
            Ok(_) => Ok(v),
            Err(e) => Err(e),
        },
        ParamKind::Reference => Ok(v),
    }
}

/// What extraction yields from position `k` on: the checked values of the
/// non-reference parameters, in declaration order, each fetched at its
/// original positional index; or the first fetch or check error, so that
/// a failed extraction aborts the invocation before anything runs.
pub open spec fn spec_extract(
    params: Seq<ParamKind>,
    args: Seq<ValueView>,
    k: int,
) -> Result<Seq<ValueView>, ErrorView>
    decreases params.len() - k,
{
    if k < 0 || k >= params.len() {
        Ok(Seq::empty())
    } else if params[k] is Reference {
        spec_extract(params, args, k + 1)
    } else if k >= args.len() {
        Err(ErrorView::MissingArgument(k))
    } else {
        match spec_check(params[k], args[k]) {
            Ok(v) => match spec_extract(params, args, k + 1) {
                Ok(rest) => Ok(seq![v] + rest),
                Err(e) => Err(e),
            },
            Err(e) => Err(e),
        }
    }
}

/// Checks one fetched value against a declared kind; see [`spec_check`].
pub fn check_value(kind: ParamKind, v: Value) -> (r: Result<Value, Error>)
    ensures
        match spec_check(kind, v@) {
            Ok(w) => r matches Ok(value) && value@ == w,
            Err(e) => r matches Err(err) && err@ == e,
        },
{
    let expected = match kind {
        ParamKind::Int64 => DataType::Integer,
        ParamKind::Int32 => DataType::Integer,
        ParamKind::Int16 => DataType::Integer,
        ParamKind::Int8 => DataType::Integer,
        ParamKind::UInt32 => DataType::Integer,
        ParamKind::UInt16 => DataType::Integer,
        ParamKind::UInt8 => DataType::Integer,
        ParamKind::Number => DataType::Number,
        ParamKind::Boolean => DataType::Boolean,
        ParamKind::Text => DataType::String,
        ParamKind::Bytes => DataType::Bytes,
        ParamKind::Reference => {
            return Ok(v);
        },
    };
    if v.get_type() == expected {
        Ok(v)
    } else {
        let name = match kind {
            ParamKind::Int64 => "i64",
            ParamKind::Int32 => "i32",
            ParamKind::Int16 => "i16",
            ParamKind::Int8 => "i8",
            ParamKind::UInt32 => "u32",
            ParamKind::UInt16 => "u16",
            ParamKind::UInt8 => "u8",
            ParamKind::Number => "number",
            ParamKind::Boolean => "bool",
            ParamKind::Text => "string",
            ParamKind::Bytes => "bytes",
            ParamKind::Reference => "",
        };
        Err(Error::InvalidType(String::from_str(name), v))
    }
}

/// The view of the values a successful extraction collected.
pub open spec fn values_view(out: Seq<Value>) -> Seq<ValueView> {
    Seq::new(out.len(), |i: int| out[i]@)
}

/// Runs extraction over a whole declared signature: fetches the store
/// entry at each non-reference parameter's original index, checks it
/// against the declared kind, and collects the checked values in order;
/// the first missing or mismatched argument aborts with its exact error.
/// See [`spec_extract`].
pub fn extract_args(params: &Vec<ParamKind>, store: &ArgStore) -> (r: Result<Vec<Value>, Error>)
    ensures
        match spec_extract(params@, store@, 0) {
            Ok(vs) => r matches Ok(out) && values_view(out@) == vs,
            Err(e) => r matches Err(err) && err@ == e,
        },
{
    let mut out: Vec<Value> = Vec::new();
    let mut k: usize = 0;
    proof {
        assert(values_view(out@) + spec_extract(params@, store@, 0)->Ok_0 =~= spec_extract(
            params@,
            store@,
            0,
        )->Ok_0);
    }
    while k < params.len()
        invariant
            k <= params@.len(),
            match spec_extract(params@, store@, k as int) {
                Ok(rest) => spec_extract(params@, store@, 0) matches Ok(full) && full
                    == values_view(out@) + rest,
                Err(e) => spec_extract(params@, store@, 0) == Err::<Seq<ValueView>, ErrorView>(e),
            },
        decreases params@.len() - k,
    {
        let ghost out_before = out@;
        let kind = params[k];
        match kind {
            ParamKind::Reference => {},
            _ => {
                let fetched = store.get(k);
                match fetched {
                    Err(e) => {
                        return Err(e);
                    },
                    Ok(v) => {
                        match check_value(kind, v) {
                            Err(e) => {
                                return Err(e);
                            },
                            Ok(w) => {
                                out.push(w);
                                proof {
                                    let rest1 = spec_extract(params@, store@, k + 1);
                                    if rest1 is Ok {
                                        assert(values_view(out@) =~= values_view(out_before).push(
                                            w@,
                                        ));
                                        assert(values_view(out_before) + (seq![w@] + rest1->Ok_0)
                                            =~= values_view(out@) + rest1->Ok_0);
                                    }
                                }
                            },
                        }
                    },
                }
            },
        }
        k = k + 1;
    }
    proof {
        assert(values_view(out@) + Seq::<ValueView>::empty() =~= values_view(out@));
    }
    Ok(out)
}

/// A generated command adapter: the uniform, immutable wrapper that binds
/// one typed native function to the invocation interface. Its whole
/// behaviour on the modelled arguments of one invocation is pinned by
/// `spec_invoke`, and `invoke` returns exactly that.
pub trait Adapter: Sized {
    /// The result the adapter returns on given positional arguments:
    /// either the native function's converted return value, or the error
    /// that aborted the invocation.
    spec fn spec_invoke(&self, args: Seq<ValueView>) -> Result<ValueView, ErrorView>;

    /// Extracts this adapter's arguments from the store, invokes the
    /// wrapped native function once every extraction succeeded, and
    /// converts the returned native value back into a dynamic value.
    fn invoke(&self, store: &ArgStore) -> (r: Result<Value, Error>)
        ensures
            match self.spec_invoke(store@) {
                Ok(v) => r matches Ok(value) && value@ == v,
                Err(e) => r matches Err(err) && err@ == e,
            },
    ;
}

} // verus!
