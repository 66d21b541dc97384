//! The scalar function `json_extract_string(column, 'key')` over a batch of
//! rows.
//!
//! A query engine hands the function its two arguments, each either a column
//! (one value per row) or a scalar, and the number of rows in the batch.
//! [`ArgValue`] holds what the function reads of an argument; the engine's
//! own argument and result types are converted to and from these plain
//! values at the edge of the library.
use vstd::prelude::*;
use vstd::string::*;

use crate::extract::{extracted, json_extract_string_impl};

verus! {

/// The column types that the function's declaration names.
#[derive(PartialEq, Eq, Structural, Clone, Copy, Debug)]
pub enum ColumnType {
    /// UTF-8 text.
    Utf8,
}

/// How the result of a function depends on its inputs.
#[derive(PartialEq, Eq, Structural, Clone, Copy, Debug)]
pub enum Volatility {
    /// The same inputs always give the same result.
    Immutable,
    /// The same inputs give the same result within one query.
    Stable,
    /// The result may differ on every call.
    Volatile,
}

/// One argument of a call, as the function reads it.
pub enum ArgValue {
    /// A column of UTF-8 text, one value per row (`None` for a NULL row).
    Utf8Array(Vec<Option<String>>),
    /// A column of another type, named as the engine names that type.
    OtherArray(String),
    /// A UTF-8 text scalar (`None` for NULL).
    Utf8Scalar(Option<String>),
    /// A large UTF-8 text scalar (`None` for NULL).
    LargeUtf8Scalar(Option<String>),
    /// The untyped NULL scalar.
    NullScalar,
    /// A scalar of another type, named as the engine names that type.
    OtherScalar(String),
}

/// The name of an argument's type, as the engine writes it in messages.
pub open spec fn data_type_label(arg: ArgValue) -> Seq<char> {
    match arg {
        ArgValue::Utf8Array(_) => "Utf8"@,
        ArgValue::OtherArray(name) => name@,
        ArgValue::Utf8Scalar(_) => "Utf8"@,
        ArgValue::LargeUtf8Scalar(_) => "LargeUtf8"@,
        ArgValue::NullScalar => "Null"@,
        ArgValue::OtherScalar(name) => name@,
    }
}

impl ArgValue {
    /// The name of this argument's type, as the engine writes it in messages.
    pub fn data_type_label(&self) -> (res: String)
        ensures
            res@ == data_type_label(*self),
    {
        match self {
            ArgValue::Utf8Array(_) => String::from_str("Utf8"),
            ArgValue::OtherArray(name) => name.clone(),
            ArgValue::Utf8Scalar(_) => String::from_str("Utf8"),
            ArgValue::LargeUtf8Scalar(_) => String::from_str("LargeUtf8"),
            ArgValue::NullScalar => String::from_str("Null"),
            ArgValue::OtherScalar(name) => name.clone(),
        }
    }
}

/// The result of a call: a column with one value per row, or one scalar.
pub enum UdfOutput {
    /// One UTF-8 value per row (`None` for NULL).
    Array(Vec<Option<String>>),
    /// One UTF-8 scalar (`None` for NULL).
    Scalar(Option<String>),
}

/// Why a call was refused.
pub enum UdfError {
    /// The key argument is not a UTF-8 text scalar; the type it has.
    KeyNotUtf8Scalar(String),
    /// The call has no arguments at all.
    NoArguments,
    /// The JSON column is a column of another type than UTF-8; that type.
    ColumnNotUtf8(String),
    /// The JSON argument is a scalar other than UTF-8 text or NULL; its type.
    ScalarNotUtf8(String),
}

/// [`UdfOutput`] as a mathematical value.
pub enum OutputModel {
    Array(Seq<Option<Seq<char>>>),
    Scalar(Option<Seq<char>>),
}

/// [`UdfError`] as a mathematical value.
pub enum ErrorModel {
    KeyNotUtf8Scalar(Seq<char>),
    NoArguments,
    ColumnNotUtf8(Seq<char>),
    ScalarNotUtf8(Seq<char>),
}

impl View for UdfOutput {
    type V = OutputModel;

    open spec fn view(&self) -> OutputModel {
        match self {
            UdfOutput::Array(rows) => OutputModel::Array(rows.deep_view()),
            UdfOutput::Scalar(v) => OutputModel::Scalar(v.deep_view()),
        }
    }
}

impl View for UdfError {
    type V = ErrorModel;

    open spec fn view(&self) -> ErrorModel {
        match self {
            UdfError::KeyNotUtf8Scalar(t) => ErrorModel::KeyNotUtf8Scalar(t@),
            UdfError::NoArguments => ErrorModel::NoArguments,
            UdfError::ColumnNotUtf8(t) => ErrorModel::ColumnNotUtf8(t@),
            UdfError::ScalarNotUtf8(t) => ErrorModel::ScalarNotUtf8(t@),
        }
    }
}

/// The text of an error, as the engine reports it.
pub open spec fn error_message(e: ErrorModel) -> Seq<char> {
    match e {
        ErrorModel::KeyNotUtf8Scalar(t) => "json_extract_string: key argument must be a Utf8 scalar, got "@ + t,
        ErrorModel::NoArguments => "json_extract_string: expected 2 arguments, got 0"@,
        ErrorModel::ColumnNotUtf8(t) => "json_extract_string: JSON column must be Utf8, got "@ + t,
        ErrorModel::ScalarNotUtf8(t) => "json_extract_string: JSON column must be Utf8 or Null, got "@ + t,
    }
}

impl UdfError {
    /// The text of this error, as the engine reports it.
    pub fn message(&self) -> (res: String)
        ensures
            res@ == error_message(self@),
    {
        match self {
            UdfError::KeyNotUtf8Scalar(t) => String::from_str(
                "json_extract_string: key argument must be a Utf8 scalar, got ",
            ).concat(t.as_str()),
            UdfError::NoArguments => String::from_str("json_extract_string: expected 2 arguments, got 0"),
            UdfError::ColumnNotUtf8(t) => String::from_str(
                "json_extract_string: JSON column must be Utf8, got ",
            ).concat(t.as_str()),
            UdfError::ScalarNotUtf8(t) => String::from_str(
                "json_extract_string: JSON column must be Utf8 or Null, got ",
            ).concat(t.as_str()),
        }
    }
}

/// What the key argument (the second argument) gives.
pub enum KeyModel {
    /// A key to look up.
    Key(Seq<char>),
    /// No key: the argument is missing or NULL.
    NoKey,
    /// The argument is not a text scalar; its type.
    Rejected(Seq<char>),
}

/// What the key argument of `args` gives.
pub open spec fn key_model(args: Seq<ArgValue>) -> KeyModel {
    if args.len() < 2 {
        KeyModel::NoKey
    } else {
        match args[1] {
            ArgValue::Utf8Scalar(Some(k)) => KeyModel::Key(k@),
            ArgValue::LargeUtf8Scalar(Some(k)) => KeyModel::Key(k@),
            ArgValue::Utf8Scalar(None) => KeyModel::NoKey,
            ArgValue::LargeUtf8Scalar(None) => KeyModel::NoKey,
            ArgValue::NullScalar => KeyModel::NoKey,
            other => KeyModel::Rejected(data_type_label(other)),
        }
    }
}

/// `n` NULL rows.
pub open spec fn null_rows(n: nat) -> Seq<Option<Seq<char>>> {
    Seq::new(n, |i: int| None)
}

/// Each row of `rows` with member `key` extracted, in order.
pub open spec fn extracted_rows(rows: Seq<Option<Seq<char>>>, key: Seq<char>) -> Seq<Option<Seq<char>>> {
    Seq::new(rows.len(), |i: int| extracted(rows[i], key))
}

/// What a call with `args` over a batch of `number_rows` rows gives:
/// - a key argument that is not a text scalar is refused;
/// - a missing or NULL key gives a column of `number_rows` NULLs;
/// - otherwise a text column gives one extracted value per row, a text scalar
///   one extracted scalar, the NULL scalar a NULL scalar, and any other JSON
///   argument is refused.
pub open spec fn evaluation(args: Seq<ArgValue>, number_rows: nat) -> Result<OutputModel, ErrorModel> {
    match key_model(args) {
        KeyModel::Rejected(t) => Err(ErrorModel::KeyNotUtf8Scalar(t)),
        KeyModel::NoKey => Ok(OutputModel::Array(null_rows(number_rows))),
        KeyModel::Key(k) => {
            if args.len() == 0 {
                Err(ErrorModel::NoArguments)
            } else {
                match args[0] {
                    ArgValue::Utf8Array(rows) => Ok(OutputModel::Array(extracted_rows(rows.deep_view(), k))),
                    ArgValue::OtherArray(t) => Err(ErrorModel::ColumnNotUtf8(t@)),
                    ArgValue::Utf8Scalar(v) => Ok(OutputModel::Scalar(extracted(v.deep_view(), k))),
                    ArgValue::NullScalar => Ok(OutputModel::Scalar(None)),
                    other => Err(ErrorModel::ScalarNotUtf8(data_type_label(other))),
                }
            }
        },
    }
}

/// A call's result as a mathematical value.
pub open spec fn result_model(res: Result<UdfOutput, UdfError>) -> Result<OutputModel, ErrorModel> {
    match res {
        Ok(out) => Ok(out@),
        Err(e) => Err(e@),
    }
}

/// The key that the key argument gives: `Ok(Some(key))`, `Ok(None)` for a
/// missing or NULL key, or the refusal of an argument that is not text.
fn read_key(args: &Vec<ArgValue>) -> (res: Result<Option<String>, UdfError>)
    ensures
        match key_model(args@) {
            KeyModel::Key(k) => res matches Ok(Some(s)) && s@ == k,
            KeyModel::NoKey => res matches Ok(None),
            KeyModel::Rejected(t) => res matches Err(e) && e@ == ErrorModel::KeyNotUtf8Scalar(t),
        },
        args@.len() >= 2 ==> match args@[1] {
            ArgValue::Utf8Scalar(Some(k)) => res matches Ok(Some(s)) && s@ == k@,
            ArgValue::LargeUtf8Scalar(Some(k)) => res matches Ok(Some(s)) && s@ == k@,
            _ => true,
        },
{
    if args.len() < 2 {
        return Ok(None);
    }
    match &args[1] {
        ArgValue::Utf8Scalar(opt) => Ok(opt.clone()),
        ArgValue::LargeUtf8Scalar(opt) => Ok(opt.clone()),
        ArgValue::NullScalar => Ok(None),
        other => Err(UdfError::KeyNotUtf8Scalar(other.data_type_label())),
    }
}

/// A column of `n` NULLs.
fn null_column(n: usize) -> (res: Vec<Option<String>>)
    ensures
        res.deep_view() == null_rows(n as nat),
{
    let mut out: Vec<Option<String>> = Vec::new();
    let mut i: usize = 0;
    while i < n
        invariant
            i <= n,
            out@.len() == i,
            forall|j: int| 0 <= j < i ==> #[trigger] out@[j] is None,
        decreases n - i,
    {
        out.push(None);
        i = i + 1;
    }
    assert(out.deep_view() =~= null_rows(n as nat));
    out
}

/// Member `key` extracted from each row of a text column, in order.
pub fn extract_column(rows: &Vec<Option<String>>, key: &str) -> (res: Vec<Option<String>>)
    ensures
        res.deep_view() == extracted_rows(rows.deep_view(), key@),
{
    let mut out: Vec<Option<String>> = Vec::new();
    let mut i: usize = 0;
    while i < rows.len()
        invariant
            i <= rows.len(),
            out@.len() == i,
            forall|j: int| 0 <= j < i ==> #[trigger] out@[j].deep_view() == extracted(rows@[j].deep_view(), key@),
        decreases rows.len() - i,
    {
        let value = match &rows[i] {
            None => None,
            Some(text) => json_extract_string_impl(Some(text.as_str()), key),
        };
        out.push(value);
        i = i + 1;
    }
    assert(out.deep_view() =~= extracted_rows(rows.deep_view(), key@));
    out
}

/// Calls `json_extract_string` with `args` over a batch of `number_rows` rows.
pub fn evaluate(args: &Vec<ArgValue>, number_rows: usize) -> (res: Result<UdfOutput, UdfError>)
    ensures
        result_model(res) == evaluation(args@, number_rows as nat),
{
    let key = match read_key(args) {
        Ok(Some(key)) => key,
        Ok(None) => return Ok(UdfOutput::Array(null_column(number_rows))),
        Err(e) => return Err(e),
    };
    if args.len() == 0 {
        return Err(UdfError::NoArguments);
    }
    match &args[0] {
        ArgValue::Utf8Array(rows) => Ok(UdfOutput::Array(extract_column(rows, key.as_str()))),
        ArgValue::OtherArray(t) => Err(UdfError::ColumnNotUtf8(t.clone())),
        ArgValue::Utf8Scalar(v) => {
            let text = match v {
                Some(s) => Some(s.as_str()),
                None => None,
            };
            Ok(UdfOutput::Scalar(json_extract_string_impl(text, key.as_str())))
        },
        ArgValue::NullScalar => Ok(UdfOutput::Scalar(None)),
        other => Err(UdfError::ScalarNotUtf8(other.data_type_label())),
    }
}

/// The function `json_extract_string`: its declaration (two UTF-8 arguments,
/// a nullable UTF-8 result, immutable) and its evaluation.
#[derive(Debug)]
pub struct JsonExtractStringUdf {
    arg_types: Vec<ColumnType>,
    volatility: Volatility,
}

impl JsonExtractStringUdf {
    /// The declaration every instance carries: arguments `(Utf8, Utf8)`,
    /// immutable.
    #[verifier::type_invariant]
    spec fn declared(&self) -> bool {
        &&& self.arg_types@ == seq![ColumnType::Utf8, ColumnType::Utf8]
        &&& self.volatility == Volatility::Immutable
    }

    /// The argument types that this instance declares.
    pub closed spec fn declared_arg_types(&self) -> Seq<ColumnType> {
        self.arg_types@
    }

    /// The volatility that this instance declares.
    pub closed spec fn declared_volatility(&self) -> Volatility {
        self.volatility
    }

    /// The function with its declaration: arguments `(Utf8, Utf8)`, immutable.
    pub fn new() -> (res: Self)
        ensures
            res.declared_arg_types() == seq![ColumnType::Utf8, ColumnType::Utf8],
            res.declared_volatility() == Volatility::Immutable,
    {
        let mut arg_types: Vec<ColumnType> = Vec::new();
        arg_types.push(ColumnType::Utf8);
        arg_types.push(ColumnType::Utf8);
        assert(arg_types@ =~= seq![ColumnType::Utf8, ColumnType::Utf8]);
        JsonExtractStringUdf { arg_types, volatility: Volatility::Immutable }
    }

    /// The name under which the function is called in queries.
    pub fn name(&self) -> (res: &'static str)
        ensures
            res@ == "json_extract_string"@,
    {
        "json_extract_string"
    }

    /// The declared argument types: JSON text, then the key.
    pub fn arg_types(&self) -> (res: &Vec<ColumnType>)
        ensures
            res@ == self.declared_arg_types(),
            res@ == seq![ColumnType::Utf8, ColumnType::Utf8],
    {
        proof {
            use_type_invariant(self);
        }
        &self.arg_types
    }

    /// The declared volatility: the result depends on the arguments alone.
    pub fn volatility(&self) -> (res: Volatility)
        ensures
            res == self.declared_volatility(),
            res == Volatility::Immutable,
    {
        proof {
            use_type_invariant(self);
        }
        self.volatility
    }

    /// The result type, whatever the argument types: UTF-8 text (nullable).
    pub fn return_type(&self, arg_types: &[ColumnType]) -> (res: ColumnType)
        ensures
            res == ColumnType::Utf8,
    {
        ColumnType::Utf8
    }

    /// Evaluates the function on `args` over a batch of `number_rows` rows.
    pub fn invoke(&self, args: &Vec<ArgValue>, number_rows: usize) -> (res: Result<UdfOutput, UdfError>)
        ensures
            result_model(res) == evaluation(args@, number_rows as nat),
    {
        evaluate(args, number_rows)
    }
}

impl Default for JsonExtractStringUdf {
    /// The same as [`JsonExtractStringUdf::new`].
    fn default() -> (res: Self)
        ensures
            res.declared_arg_types() == seq![ColumnType::Utf8, ColumnType::Utf8],
            res.declared_volatility() == Volatility::Immutable,
    {
        Self::new()
    }
}

/// A missing or NULL key gives a column of `number_rows` NULLs, whatever the
/// JSON argument is.
pub proof fn lemma_no_key_gives_null_column(args: Seq<ArgValue>, number_rows: nat)
    requires
        key_model(args) is NoKey,
    ensures
        evaluation(args, number_rows) matches Ok(OutputModel::Array(rows)) && rows.len() == number_rows
            && forall|i: int| 0 <= i < number_rows ==> #[trigger] rows[i] is None,
{
}

/// With a key, a text column gives one value per row, in order: row `i` of the
/// result is member `key` extracted from row `i`, and a NULL row stays NULL.
pub proof fn lemma_column_extracted_row_by_row(args: Seq<ArgValue>, number_rows: nat, key: Seq<char>, rows: Vec<Option<String>>)
    requires
        key_model(args) == KeyModel::Key(key),
        args.len() >= 1,
        args[0] == ArgValue::Utf8Array(rows),
    ensures
        evaluation(args, number_rows) matches Ok(OutputModel::Array(out)) && out.len() == rows@.len()
            && (forall|i: int| 0 <= i < out.len() ==> #[trigger] out[i] == extracted(rows@[i].deep_view(), key))
            && (forall|i: int| 0 <= i < out.len() && rows@[i] is None ==> #[trigger] out[i] is None),
{
}

/// With a key, the NULL scalar gives the NULL scalar, and a text scalar gives
/// member `key` extracted from it.
pub proof fn lemma_scalar_extracted(args: Seq<ArgValue>, number_rows: nat, key: Seq<char>)
    requires
        key_model(args) == KeyModel::Key(key),
        args.len() >= 1,
    ensures
        args[0] is NullScalar ==> evaluation(args, number_rows) == Ok::<OutputModel, ErrorModel>(OutputModel::Scalar(None)),
        args[0] matches ArgValue::Utf8Scalar(v) ==> evaluation(args, number_rows)
            == Ok::<OutputModel, ErrorModel>(OutputModel::Scalar(extracted(v.deep_view(), key))),
{
}

/// The key is the text of the key argument exactly as given (case, dots and
/// all): with a text column, each row gives member `k` of that row, where `k`
/// is the key argument's text itself.
pub proof fn lemma_key_used_as_given(args: Seq<ArgValue>, number_rows: nat, k: String, rows: Vec<Option<String>>)
    requires
        args.len() >= 2,
        args[1] == ArgValue::Utf8Scalar(Some(k)) || args[1] == ArgValue::LargeUtf8Scalar(Some(k)),
        args[0] == ArgValue::Utf8Array(rows),
    ensures
        key_model(args) == KeyModel::Key(k@),
        evaluation(args, number_rows) == Ok::<OutputModel, ErrorModel>(OutputModel::Array(
            Seq::new(rows@.len(), |i: int| extracted(rows@[i].deep_view(), k@)),
        )),
{
    assert(extracted_rows(rows.deep_view(), k@) =~= Seq::new(
        rows@.len(),
        |i: int| extracted(rows@[i].deep_view(), k@),
    ));
}

} // verus!
