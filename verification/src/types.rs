use vstd::prelude::*;
use vstd::string::*;
use crate::json::{as_str, as_u64, json_model, json_text, model_string, model_unsigned, to_text, JsonModel};
use crate::text::{decimal, decimal_string};

verus! {

/// The scalar kinds a field can have.
#[derive(Debug, Clone, Copy, PartialEq, Eq, Structural)]
pub enum DataKind {
    String,
    UnsignedInt32,
    Enum,
    Byte,
}

/// A field value that was decoded from JSON.
#[derive(Debug, PartialEq, Eq)]
pub enum DataValue {
    String(String),
    UnsignedInt32(u32),
    /// The discriminant, stored as it was sent.
    Enum(u32),
    Byte(u8),
}

/// The mathematical content of a `DataValue`.
pub enum ValueModel {
    String(Seq<char>),
    UnsignedInt32(u32),
    Enum(u32),
    Byte(u8),
}

/// Why a JSON value does not decode to a kind.
#[derive(Debug, Clone, Copy, PartialEq, Eq, Structural)]
pub enum Mismatch {
    /// The JSON value has another shape than the kind asks for.
    WrongShape,
    /// The JSON value is an integer too large for the kind.
    OutOfRange,
}

/// A failed decode: the kind that was expected, what was wrong, and the JSON
/// text of the value that was found.
#[derive(Debug)]
pub struct ExtractionError {
    pub expected: DataKind,
    pub reason: Mismatch,
    pub found: String,
}

/// The mathematical content of an `ExtractionError`.
pub struct ExtractionErrorModel {
    pub expected: DataKind,
    pub reason: Mismatch,
    pub found: Seq<char>,
}

impl View for DataValue {
    type V = ValueModel;

    open spec fn view(&self) -> ValueModel {
        match *self {
            DataValue::String(s) => ValueModel::String(s@),
            DataValue::UnsignedInt32(n) => ValueModel::UnsignedInt32(n),
            DataValue::Enum(n) => ValueModel::Enum(n),
            DataValue::Byte(n) => ValueModel::Byte(n),
        }
    }
}

impl View for ExtractionError {
    type V = ExtractionErrorModel;

    open spec fn view(&self) -> ExtractionErrorModel {
        ExtractionErrorModel { expected: self.expected, reason: self.reason, found: self.found@ }
    }
}

/// The kind of a decoded value.
pub open spec fn kind_of(v: ValueModel) -> DataKind {
    match v {
        ValueModel::String(_) => DataKind::String,
        ValueModel::UnsignedInt32(_) => DataKind::UnsignedInt32,
        ValueModel::Enum(_) => DataKind::Enum,
        ValueModel::Byte(_) => DataKind::Byte,
    }
}

/// The largest integer a numeric kind holds.
pub open spec fn kind_limit(kind: DataKind) -> int {
    match kind {
        DataKind::Byte => 0xff,
        _ => 0xffff_ffff,
    }
}

/// The name of a kind, as error messages print it.
pub open spec fn kind_name(kind: DataKind) -> Seq<char> {
    match kind {
        DataKind::String => "String"@,
        DataKind::UnsignedInt32 => "Unsigned 32-bit Integer"@,
        DataKind::Enum => "Enum"@,
        DataKind::Byte => "Byte"@,
    }
}

/// The decoding rules: what a JSON value is worth as a value of `kind`.
///
/// A `String` takes a JSON string as it is. The numeric kinds take a JSON
/// number stored as a non-negative integer within the kind's limit; an
/// `Enum` keeps the number as sent.
pub open spec fn decode(kind: DataKind, m: JsonModel) -> Result<ValueModel, Mismatch> {
    match kind {
        DataKind::String => match model_string(m) {
            Some(s) => Ok(ValueModel::String(s)),
            None => Err(Mismatch::WrongShape),
        },
        _ => match model_unsigned(m) {
            None => Err(Mismatch::WrongShape),
            Some(i) => if i > kind_limit(kind) {
                Err(Mismatch::OutOfRange)
            } else {
                Ok(
                    match kind {
                        DataKind::UnsignedInt32 => ValueModel::UnsignedInt32(i as u32),
                        DataKind::Enum => ValueModel::Enum(i as u32),
                        _ => ValueModel::Byte(i as u8),
                    },
                )
            },
        },
    }
}

/// `decode`, with the failure written out in full.
pub open spec fn decode_full(kind: DataKind, m: JsonModel) -> Result<
    ValueModel,
    ExtractionErrorModel,
> {
    match decode(kind, m) {
        Ok(v) => Ok(v),
        Err(reason) => Err(ExtractionErrorModel { expected: kind, reason, found: json_text(m) }),
    }
}

/// The text of a decoded value: a string as it is, a number in decimal.
pub open spec fn value_text(v: ValueModel) -> Seq<char> {
    match v {
        ValueModel::String(s) => s,
        ValueModel::UnsignedInt32(n) => decimal(n as nat),
        ValueModel::Enum(n) => decimal(n as nat),
        ValueModel::Byte(n) => decimal(n as nat),
    }
}

/// The sentence that reports a failed decode.
pub open spec fn mismatch_text(e: ExtractionErrorModel) -> Seq<char> {
    match e.reason {
        Mismatch::WrongShape => "value "@ + e.found + " is not of type "@ + kind_name(e.expected)
            + " (JSON cast failed)"@,
        Mismatch::OutOfRange => "value "@ + e.found + " is over the limit for type "@ + kind_name(
            e.expected,
        ),
    }
}

impl DataKind {
    /// The name of the kind, as error messages print it.
    pub fn name(&self) -> (s: &'static str)
        ensures
            s@ == kind_name(*self),
    {
        match self {
            DataKind::String => "String",
            DataKind::UnsignedInt32 => "Unsigned 32-bit Integer",
            DataKind::Enum => "Enum",
            DataKind::Byte => "Byte",
        }
    }

    /// Decodes one JSON value as a value of this kind.
    pub fn extract(&self, json: &serde_json::Value) -> (r: Result<DataValue, ExtractionError>)
        ensures
            match r {
                Ok(v) => decode_full(*self, json_model(*json)) == Ok::<
                    ValueModel,
                    ExtractionErrorModel,
                >(v@),
                Err(e) => decode_full(*self, json_model(*json)) == Err::<
                    ValueModel,
                    ExtractionErrorModel,
                >(e@),
            },
    {
        match self {
            DataKind::String => match as_str(json) {
                Some(s) => Ok(DataValue::String(String::from_str(s))),
                None => Err(
                    ExtractionError {
                        expected: *self,
                        reason: Mismatch::WrongShape,
                        found: to_text(json),
                    },
                ),
            },
            _ => match as_u64(json) {
                None => Err(
                    ExtractionError {
                        expected: *self,
                        reason: Mismatch::WrongShape,
                        found: to_text(json),
                    },
                ),
                Some(n) => match self {
                    DataKind::Byte => if n > 0xff {
                        Err(
                            ExtractionError {
                                expected: *self,
                                reason: Mismatch::OutOfRange,
                                found: to_text(json),
                            },
                        )
                    } else {
                        Ok(DataValue::Byte(n as u8))
                    },
                    _ => if n > 0xffff_ffff {
                        Err(
                            ExtractionError {
                                expected: *self,
                                reason: Mismatch::OutOfRange,
                                found: to_text(json),
                            },
                        )
                    } else {
                        match self {
                            DataKind::Enum => Ok(DataValue::Enum(n as u32)),
                            _ => Ok(DataValue::UnsignedInt32(n as u32)),
                        }
                    },
                },
            },
        }
    }
}

impl DataValue {
    /// The kind of this value.
    pub fn kind(&self) -> (k: DataKind)
        ensures
            k == kind_of(self@),
    {
        match self {
            DataValue::String(_) => DataKind::String,
            DataValue::UnsignedInt32(_) => DataKind::UnsignedInt32,
            DataValue::Enum(_) => DataKind::Enum,
            DataValue::Byte(_) => DataKind::Byte,
        }
    }

    /// The text of this value: a string as it is, a number in decimal.
    pub fn to_text(&self) -> (s: String)
        ensures
            s@ == value_text(self@),
    {
        match self {
            DataValue::String(s) => s.clone(),
            DataValue::UnsignedInt32(n) => decimal_string(*n as u64),
            DataValue::Enum(n) => decimal_string(*n as u64),
            DataValue::Byte(n) => decimal_string(*n as u64),
        }
    }

}

impl Clone for DataValue {
    fn clone(&self) -> (v: DataValue)
        ensures
            v@ == self@,
    {
        match self {
            DataValue::String(s) => DataValue::String(s.clone()),
            DataValue::UnsignedInt32(n) => DataValue::UnsignedInt32(*n),
            DataValue::Enum(n) => DataValue::Enum(*n),
            DataValue::Byte(n) => DataValue::Byte(*n),
        }
    }
}

impl ExtractionError {
    /// The sentence that reports this failure.
    pub fn to_text(&self) -> (s: String)
        ensures
            s@ == mismatch_text(self@),
    {
        let mut s = String::from_str("value ");
        s.append(self.found.as_str());
        match self.reason {
            Mismatch::WrongShape => {
                s.append(" is not of type ");
                s.append(self.expected.name());
                s.append(" (JSON cast failed)");
            },
            Mismatch::OutOfRange => {
                s.append(" is over the limit for type ");
                s.append(self.expected.name());
            },
        }
        s
    }
}

} // verus!
