//! The response models, and how each is read out of a response document.
use vstd::prelude::*;

use crate::fields::{
    count_of, count_ok, field, fits, fits_fields, flag_of, flag_ok, given,
    lemma_null_member_reads_as_absent, list_of, list_ok, read_count, read_flag, read_text,
    read_tri, text_of, text_ok, tri_of,
};
use crate::json::{entry_get, lemma_items_view, member, Json, JsonView, NumberView};
use crate::text::{decimal, push_decimal, push_str};

verus! {

/// A response model: a typed reading of a response document that keeps the
/// document itself in `raw`.
pub trait Model: Sized {
    /// Whether `doc` reads as this model: it has the model's shape and each
    /// field present holds a value of the field's type.
    spec fn decodes(doc: JsonView) -> bool;

    /// Whether `self` is what `doc` reads as.
    spec fn read_from(self, doc: JsonView) -> bool;

    /// Why `doc` does not read as this model: the first field, in order,
    /// that does not hold a value of its type, or the shape of `doc`.
    spec fn failure(doc: JsonView) -> Seq<char>;

    /// Reads the model out of `doc`; when `doc` does not read as one, says
    /// why.
    fn from_json(doc: Json) -> (r: Result<Self, String>)
        ensures
            r is Ok <==> Self::decodes(doc@),
            r matches Ok(v) ==> v.read_from(doc@),
            r matches Err(m) ==> m@ == Self::failure(doc@),
    ;
}

/// Whether every element of `items` reads as a `T`.
pub open spec fn all_decode<T: Model>(items: Seq<JsonView>) -> bool {
    forall|i: int| 0 <= i < items.len() ==> T::decodes(#[trigger] items[i])
}

/// Whether `values` are what `items` read as, one for one and in order.
pub open spec fn all_read_from<T: Model>(values: Seq<T>, items: Seq<JsonView>) -> bool {
    &&& values.len() == items.len()
    &&& forall|i: int| 0 <= i < items.len() ==> #[trigger] values[i].read_from(items[i])
}

/// Why a member does not hold what its field needs.
pub open spec fn member_failure(name: Seq<char>, what: Seq<char>) -> Seq<char> {
    "the member `"@ + name + "` "@ + what
}

/// Why a document does not have the shape of a model of `n` fields.
pub open spec fn shape_failure(n: nat) -> Seq<char> {
    "the document is neither an object nor an array of at most "@ + decimal(n) + " elements"@
}

/// Why the list `items` of the member `name` does not read as `T`s, from
/// element `i` on: the first element that does not, and why.
pub open spec fn element_failure<T: Model>(name: Seq<char>, items: Seq<JsonView>, i: int) -> Seq<
    char,
>
    decreases items.len() - i,
{
    if i < 0 || i >= items.len() {
        seq![]
    } else if !T::decodes(items[i]) {
        "the member `"@ + name + "`, element "@ + decimal(i as nat) + ": "@ + T::failure(items[i])
    } else {
        element_failure::<T>(name, items, i + 1)
    }
}

/// Why a list member does not read as a list of `T`s.
pub open spec fn list_failure<T: Model>(name: Seq<char>, g: Option<JsonView>) -> Seq<char> {
    if !list_ok(g) {
        member_failure(name, "is not an array"@)
    } else {
        element_failure::<T>(name, list_of(g), 0)
    }
}

proof fn lemma_element_failure_skips<T: Model>(name: Seq<char>, items: Seq<JsonView>, i: int)
    requires
        0 <= i <= items.len(),
        forall|j: int| 0 <= j < i ==> T::decodes(#[trigger] items[j]),
    ensures
        element_failure::<T>(name, items, 0) == element_failure::<T>(name, items, i),
    decreases i,
{
    if i > 0 {
        lemma_element_failure_skips::<T>(name, items, i - 1);
    }
}

fn member_failure_text(name: &str, what: &str) -> (r: String)
    ensures
        r@ == member_failure(name@, what@),
{
    let mut m = String::new();
    push_str(&mut m, "the member `");
    push_str(&mut m, name);
    push_str(&mut m, "` ");
    push_str(&mut m, what);
    m
}

fn shape_failure_text(n: u64) -> (r: String)
    ensures
        r@ == shape_failure(n as nat),
{
    let mut m = String::new();
    push_str(&mut m, "the document is neither an object nor an array of at most ");
    push_decimal(&mut m, n);
    push_str(&mut m, " elements");
    m
}

/// Reads a list field of `T`s: absent reads as empty, an array element by
/// element; an error, saying why, when it holds anything else or an element
/// does not read as a `T`.
pub fn read_list<T: Model>(doc: &Json, index: usize, name: &str) -> (r: Result<Vec<T>, String>)
    ensures
        r is Ok <==> (list_ok(given(doc@, index as int, name@)) && all_decode::<T>(
            list_of(given(doc@, index as int, name@)),
        )),
        r matches Ok(v) ==> all_read_from(v@, list_of(given(doc@, index as int, name@))),
        r matches Err(m) ==> m@ == list_failure::<T>(name@, given(doc@, index as int, name@)),
{
    let ghost g = given(doc@, index as int, name@);
    match field(doc, index, name) {
        None => {
            let v: Vec<T> = Vec::new();
            assert(v@.len() == 0);
            Ok(v)
        },
        Some(Json::Array(items)) => {
            proof {
                lemma_items_view(items@);
            }
            assert(list_of(g).len() == items@.len());
            let mut out: Vec<T> = Vec::new();
            let mut i: usize = 0;
            while i < items.len()
                invariant
                    i <= items@.len(),
                    g == given(doc@, index as int, name@),
                    list_ok(g),
                    list_of(g).len() == items@.len(),
                    forall|j: int| 0 <= j < items@.len() ==> #[trigger] list_of(g)[j] == items@[j]@,
                    out@.len() == i,
                    forall|j: int| 0 <= j < i ==> T::decodes(#[trigger] list_of(g)[j]),
                    forall|j: int| 0 <= j < i ==> #[trigger] out@[j].read_from(list_of(g)[j]),
                decreases items@.len() - i,
            {
                let item = items[i].copy();
                match T::from_json(item) {
                    Ok(v) => out.push(v),
                    Err(inner) => {
                        proof {
                            lemma_element_failure_skips::<T>(name@, list_of(g), i as int);
                        }
                        assert(!T::decodes(list_of(g)[i as int]));
                        let mut m = String::new();
                        push_str(&mut m, "the member `");
                        push_str(&mut m, name);
                        push_str(&mut m, "`, element ");
                        push_decimal(&mut m, i as u64);
                        push_str(&mut m, ": ");
                        push_str(&mut m, inner.as_str());
                        return Err(m);
                    },
                }
                i += 1;
            }
            Ok(out)
        },
        Some(_) => Err(member_failure_text(name, "is not an array")),
    }
}

/// The result of validating one IBAN.
///
/// `valid` is the primary flag. When it is false only `iban`, `formatted`,
/// `country`, `country_name`, `error` and `error_code` are populated.
#[derive(Debug, Clone, PartialEq)]
pub struct ValidationResult {
    /// Whether the IBAN passes the ISO 13616 check digit, the country's
    /// length and the country's BBAN structure.
    pub valid: bool,
    /// The IBAN as submitted, with spaces removed and letters uppercased.
    pub iban: String,
    /// The IBAN in groups of four, the way it is written on paper.
    pub formatted: String,
    /// The two ISO 13616 check digits, positions three and four.
    pub check_digits: String,
    /// The Basic Bank Account Number: everything after the check digits.
    pub bban: String,
    /// The ISO 3166-1 alpha-2 country code, positions one and two.
    pub country: String,
    /// The country's name in English.
    pub country_name: String,
    /// The institution the bank code resolves to, empty when it is not in
    /// the directory.
    pub bank_name: String,
    /// How the institution is classified, such as `private` or `central`.
    pub bank_type: String,
    /// The institution's BIC, at head-office level.
    pub bic: String,
    /// The city on record for the institution.
    pub bank_city: String,
    /// The domestic bank identifier carried inside the BBAN.
    pub bank_code: String,
    /// The branch identifier, where the country's format has one.
    pub branch_code: String,
    /// The account number carried inside the BBAN.
    pub account_number: String,
    /// A domestic account check digit run on top of the ISO 13616
    /// checksum, such as Germany's per-bank Pruefziffer or the UK
    /// sort-code and account modulus check. Advisory: `Some(false)` usually
    /// means a transcription error in the account number, `None` that the
    /// country has no such scheme.
    pub national_check_valid: Option<bool>,
    /// The country's ISO 4217 currency code.
    pub currency: String,
    /// The currency's name in English.
    pub currency_name: String,
    /// Which rails the country can be paid over, such as `SEPA+SWIFT`.
    pub transfer_type: String,
    /// Whether the IBAN's country is in the SEPA zone. `None` when the API
    /// did not say.
    pub sepa: Option<bool>,
    /// The country's flag, as an emoji.
    pub flag: String,
    /// Why `valid` is false, in words.
    pub error: String,
    /// Why `valid` is false, as a code such as `INVALID_COUNTRY`.
    pub error_code: String,
    /// The untouched response document.
    pub raw: Json,
}

impl Model for ValidationResult {
    open spec fn decodes(doc: JsonView) -> bool {
        &&& fits_fields(doc, 22)
        &&& flag_ok(given(doc, 0, "valid"@))
        &&& text_ok(given(doc, 1, "iban"@))
        &&& text_ok(given(doc, 2, "formatted"@))
        &&& text_ok(given(doc, 3, "check_digits"@))
        &&& text_ok(given(doc, 4, "bban"@))
        &&& text_ok(given(doc, 5, "country"@))
        &&& text_ok(given(doc, 6, "country_name"@))
        &&& text_ok(given(doc, 7, "bank_name"@))
        &&& text_ok(given(doc, 8, "bank_type"@))
        &&& text_ok(given(doc, 9, "bic"@))
        &&& text_ok(given(doc, 10, "bank_city"@))
        &&& text_ok(given(doc, 11, "bank_code"@))
        &&& text_ok(given(doc, 12, "branch_code"@))
        &&& text_ok(given(doc, 13, "account_number"@))
        &&& flag_ok(given(doc, 14, "national_check_valid"@))
        &&& text_ok(given(doc, 15, "currency"@))
        &&& text_ok(given(doc, 16, "currency_name"@))
        &&& text_ok(given(doc, 17, "transfer_type"@))
        &&& flag_ok(given(doc, 18, "sepa"@))
        &&& text_ok(given(doc, 19, "flag"@))
        &&& text_ok(given(doc, 20, "error"@))
        &&& text_ok(given(doc, 21, "error_code"@))
    }

    open spec fn read_from(self, doc: JsonView) -> bool {
        &&& self.valid == flag_of(given(doc, 0, "valid"@))
        &&& self.iban@ == text_of(given(doc, 1, "iban"@))
        &&& self.formatted@ == text_of(given(doc, 2, "formatted"@))
        &&& self.check_digits@ == text_of(given(doc, 3, "check_digits"@))
        &&& self.bban@ == text_of(given(doc, 4, "bban"@))
        &&& self.country@ == text_of(given(doc, 5, "country"@))
        &&& self.country_name@ == text_of(given(doc, 6, "country_name"@))
        &&& self.bank_name@ == text_of(given(doc, 7, "bank_name"@))
        &&& self.bank_type@ == text_of(given(doc, 8, "bank_type"@))
        &&& self.bic@ == text_of(given(doc, 9, "bic"@))
        &&& self.bank_city@ == text_of(given(doc, 10, "bank_city"@))
        &&& self.bank_code@ == text_of(given(doc, 11, "bank_code"@))
        &&& self.branch_code@ == text_of(given(doc, 12, "branch_code"@))
        &&& self.account_number@ == text_of(given(doc, 13, "account_number"@))
        &&& self.national_check_valid == tri_of(given(doc, 14, "national_check_valid"@))
        &&& self.currency@ == text_of(given(doc, 15, "currency"@))
        &&& self.currency_name@ == text_of(given(doc, 16, "currency_name"@))
        &&& self.transfer_type@ == text_of(given(doc, 17, "transfer_type"@))
        &&& self.sepa == tri_of(given(doc, 18, "sepa"@))
        &&& self.flag@ == text_of(given(doc, 19, "flag"@))
        &&& self.error@ == text_of(given(doc, 20, "error"@))
        &&& self.error_code@ == text_of(given(doc, 21, "error_code"@))
        &&& self.raw@ == doc
    }

    open spec fn failure(doc: JsonView) -> Seq<char> {
        if !fits_fields(doc, 22) {
            shape_failure(22)
        } else if !flag_ok(given(doc, 0, "valid"@)) {
            member_failure("valid"@, "is not a boolean"@)
        } else if !text_ok(given(doc, 1, "iban"@)) {
            member_failure("iban"@, "is not a string"@)
        } else if !text_ok(given(doc, 2, "formatted"@)) {
            member_failure("formatted"@, "is not a string"@)
        } else if !text_ok(given(doc, 3, "check_digits"@)) {
            member_failure("check_digits"@, "is not a string"@)
        } else if !text_ok(given(doc, 4, "bban"@)) {
            member_failure("bban"@, "is not a string"@)
        } else if !text_ok(given(doc, 5, "country"@)) {
            member_failure("country"@, "is not a string"@)
        } else if !text_ok(given(doc, 6, "country_name"@)) {
            member_failure("country_name"@, "is not a string"@)
        } else if !text_ok(given(doc, 7, "bank_name"@)) {
            member_failure("bank_name"@, "is not a string"@)
        } else if !text_ok(given(doc, 8, "bank_type"@)) {
            member_failure("bank_type"@, "is not a string"@)
        } else if !text_ok(given(doc, 9, "bic"@)) {
            member_failure("bic"@, "is not a string"@)
        } else if !text_ok(given(doc, 10, "bank_city"@)) {
            member_failure("bank_city"@, "is not a string"@)
        } else if !text_ok(given(doc, 11, "bank_code"@)) {
            member_failure("bank_code"@, "is not a string"@)
        } else if !text_ok(given(doc, 12, "branch_code"@)) {
            member_failure("branch_code"@, "is not a string"@)
        } else if !text_ok(given(doc, 13, "account_number"@)) {
            member_failure("account_number"@, "is not a string"@)
        } else if !flag_ok(given(doc, 14, "national_check_valid"@)) {
            member_failure("national_check_valid"@, "is not a boolean"@)
        } else if !text_ok(given(doc, 15, "currency"@)) {
            member_failure("currency"@, "is not a string"@)
        } else if !text_ok(given(doc, 16, "currency_name"@)) {
            member_failure("currency_name"@, "is not a string"@)
        } else if !text_ok(given(doc, 17, "transfer_type"@)) {
            member_failure("transfer_type"@, "is not a string"@)
        } else if !flag_ok(given(doc, 18, "sepa"@)) {
            member_failure("sepa"@, "is not a boolean"@)
        } else if !text_ok(given(doc, 19, "flag"@)) {
            member_failure("flag"@, "is not a string"@)
        } else if !text_ok(given(doc, 20, "error"@)) {
            member_failure("error"@, "is not a string"@)
        } else if !text_ok(given(doc, 21, "error_code"@)) {
            member_failure("error_code"@, "is not a string"@)
        } else {
            seq![]
        }
    }

    fn from_json(doc: Json) -> (r: Result<Self, String>) {
        if !fits(&doc, 22) {
            return Err(shape_failure_text(22));
        }
        let valid = match read_flag(&doc, 0, "valid") {
            Some(v) => v,
            None => return Err(member_failure_text("valid", "is not a boolean")),
        };
        let iban = match read_text(&doc, 1, "iban") {
            Some(v) => v,
            None => return Err(member_failure_text("iban", "is not a string")),
        };
        let formatted = match read_text(&doc, 2, "formatted") {
            Some(v) => v,
            None => return Err(member_failure_text("formatted", "is not a string")),
        };
        let check_digits = match read_text(&doc, 3, "check_digits") {
            Some(v) => v,
            None => return Err(member_failure_text("check_digits", "is not a string")),
        };
        let bban = match read_text(&doc, 4, "bban") {
            Some(v) => v,
            None => return Err(member_failure_text("bban", "is not a string")),
        };
        let country = match read_text(&doc, 5, "country") {
            Some(v) => v,
            None => return Err(member_failure_text("country", "is not a string")),
        };
        let country_name = match read_text(&doc, 6, "country_name") {
            Some(v) => v,
            None => return Err(member_failure_text("country_name", "is not a string")),
        };
        let bank_name = match read_text(&doc, 7, "bank_name") {
            Some(v) => v,
            None => return Err(member_failure_text("bank_name", "is not a string")),
        };
        let bank_type = match read_text(&doc, 8, "bank_type") {
            Some(v) => v,
            None => return Err(member_failure_text("bank_type", "is not a string")),
        };
        let bic = match read_text(&doc, 9, "bic") {
            Some(v) => v,
            None => return Err(member_failure_text("bic", "is not a string")),
        };
        let bank_city = match read_text(&doc, 10, "bank_city") {
            Some(v) => v,
            None => return Err(member_failure_text("bank_city", "is not a string")),
        };
        let bank_code = match read_text(&doc, 11, "bank_code") {
            Some(v) => v,
            None => return Err(member_failure_text("bank_code", "is not a string")),
        };
        let branch_code = match read_text(&doc, 12, "branch_code") {
            Some(v) => v,
            None => return Err(member_failure_text("branch_code", "is not a string")),
        };
        let account_number = match read_text(&doc, 13, "account_number") {
            Some(v) => v,
            None => return Err(member_failure_text("account_number", "is not a string")),
        };
        let national_check_valid = match read_tri(&doc, 14, "national_check_valid") {
            Some(v) => v,
            None => return Err(member_failure_text("national_check_valid", "is not a boolean")),
        };
        let currency = match read_text(&doc, 15, "currency") {
            Some(v) => v,
            None => return Err(member_failure_text("currency", "is not a string")),
        };
        let currency_name = match read_text(&doc, 16, "currency_name") {
            Some(v) => v,
            None => return Err(member_failure_text("currency_name", "is not a string")),
        };
        let transfer_type = match read_text(&doc, 17, "transfer_type") {
            Some(v) => v,
            None => return Err(member_failure_text("transfer_type", "is not a string")),
        };
        let sepa = match read_tri(&doc, 18, "sepa") {
            Some(v) => v,
            None => return Err(member_failure_text("sepa", "is not a boolean")),
        };
        let flag = match read_text(&doc, 19, "flag") {
            Some(v) => v,
            None => return Err(member_failure_text("flag", "is not a string")),
        };
        let error = match read_text(&doc, 20, "error") {
            Some(v) => v,
            None => return Err(member_failure_text("error", "is not a string")),
        };
        let error_code = match read_text(&doc, 21, "error_code") {
            Some(v) => v,
            None => return Err(member_failure_text("error_code", "is not a string")),
        };
        Ok(ValidationResult { valid, iban, formatted, check_digits, bban, country, country_name, bank_name, bank_type, bic, bank_city, bank_code, branch_code, account_number, national_check_valid, currency, currency_name, transfer_type, sepa, flag, error, error_code, raw: doc })
    }
}

/// The result of a bulk validation or a text extraction. Results come back
/// in the same order as the input.
#[derive(Debug, Clone, PartialEq)]
pub struct BatchResult {
    /// How many IBANs came back.
    pub count: u32,
    /// How many of them are valid.
    pub valid_count: u32,
    /// How many of them are not.
    pub invalid_count: u32,
    /// One result per IBAN, in input order.
    pub results: Vec<ValidationResult>,
    /// The untouched response document.
    pub raw: Json,
}

impl Model for BatchResult {
    open spec fn decodes(doc: JsonView) -> bool {
        &&& fits_fields(doc, 4)
        &&& count_ok(given(doc, 0, "count"@))
        &&& count_ok(given(doc, 1, "valid_count"@))
        &&& count_ok(given(doc, 2, "invalid_count"@))
        &&& list_ok(given(doc, 3, "results"@))
        &&& all_decode::<ValidationResult>(list_of(given(doc, 3, "results"@)))
    }

    open spec fn read_from(self, doc: JsonView) -> bool {
        &&& self.count == count_of(given(doc, 0, "count"@))
        &&& self.valid_count == count_of(given(doc, 1, "valid_count"@))
        &&& self.invalid_count == count_of(given(doc, 2, "invalid_count"@))
        &&& all_read_from(self.results@, list_of(given(doc, 3, "results"@)))
        &&& self.raw@ == doc
    }

    open spec fn failure(doc: JsonView) -> Seq<char> {
        if !fits_fields(doc, 4) {
            shape_failure(4)
        } else if !count_ok(given(doc, 0, "count"@)) {
            member_failure("count"@, "is not an integer from 0 to 4294967295"@)
        } else if !count_ok(given(doc, 1, "valid_count"@)) {
            member_failure("valid_count"@, "is not an integer from 0 to 4294967295"@)
        } else if !count_ok(given(doc, 2, "invalid_count"@)) {
            member_failure("invalid_count"@, "is not an integer from 0 to 4294967295"@)
        } else if !list_ok(given(doc, 3, "results"@)) {
            member_failure("results"@, "is not an array"@)
        } else if !all_decode::<ValidationResult>(list_of(given(doc, 3, "results"@))) {
            element_failure::<ValidationResult>("results"@, list_of(given(doc, 3, "results"@)), 0)
        } else {
            seq![]
        }
    }

    fn from_json(doc: Json) -> (r: Result<Self, String>) {
        if !fits(&doc, 4) {
            return Err(shape_failure_text(4));
        }
        let count = match read_count(&doc, 0, "count") {
            Some(v) => v,
            None => return Err(member_failure_text("count", "is not an integer from 0 to 4294967295")),
        };
        let valid_count = match read_count(&doc, 1, "valid_count") {
            Some(v) => v,
            None => return Err(member_failure_text("valid_count", "is not an integer from 0 to 4294967295")),
        };
        let invalid_count = match read_count(&doc, 2, "invalid_count") {
            Some(v) => v,
            None => return Err(member_failure_text("invalid_count", "is not an integer from 0 to 4294967295")),
        };
        let results = match read_list::<ValidationResult>(&doc, 3, "results") {
            Ok(v) => v,
            Err(m) => return Err(m),
        };
        Ok(BatchResult { count, valid_count, invalid_count, results, raw: doc })
    }
}

/// One segment of a country's BBAN, in the order it appears in the IBAN.
#[derive(Debug, Clone, PartialEq)]
pub struct BbanField {
    /// What the country calls this segment, such as `BLZ`.
    pub label: String,
    /// How many characters it occupies.
    pub length: u32,
    /// The character class it accepts, such as `numeric` (the member `type`).
    pub type_: String,
    /// What the segment identifies, in words.
    pub description: String,
    /// The untouched response document.
    pub raw: Json,
}

impl Model for BbanField {
    open spec fn decodes(doc: JsonView) -> bool {
        &&& fits_fields(doc, 4)
        &&& text_ok(given(doc, 0, "label"@))
        &&& count_ok(given(doc, 1, "length"@))
        &&& text_ok(given(doc, 2, "type"@))
        &&& text_ok(given(doc, 3, "description"@))
    }

    open spec fn read_from(self, doc: JsonView) -> bool {
        &&& self.label@ == text_of(given(doc, 0, "label"@))
        &&& self.length == count_of(given(doc, 1, "length"@))
        &&& self.type_@ == text_of(given(doc, 2, "type"@))
        &&& self.description@ == text_of(given(doc, 3, "description"@))
        &&& self.raw@ == doc
    }

    open spec fn failure(doc: JsonView) -> Seq<char> {
        if !fits_fields(doc, 4) {
            shape_failure(4)
        } else if !text_ok(given(doc, 0, "label"@)) {
            member_failure("label"@, "is not a string"@)
        } else if !count_ok(given(doc, 1, "length"@)) {
            member_failure("length"@, "is not an integer from 0 to 4294967295"@)
        } else if !text_ok(given(doc, 2, "type"@)) {
            member_failure("type"@, "is not a string"@)
        } else if !text_ok(given(doc, 3, "description"@)) {
            member_failure("description"@, "is not a string"@)
        } else {
            seq![]
        }
    }

    fn from_json(doc: Json) -> (r: Result<Self, String>) {
        if !fits(&doc, 4) {
            return Err(shape_failure_text(4));
        }
        let label = match read_text(&doc, 0, "label") {
            Some(v) => v,
            None => return Err(member_failure_text("label", "is not a string")),
        };
        let length = match read_count(&doc, 1, "length") {
            Some(v) => v,
            None => return Err(member_failure_text("length", "is not an integer from 0 to 4294967295")),
        };
        let type_ = match read_text(&doc, 2, "type") {
            Some(v) => v,
            None => return Err(member_failure_text("type", "is not a string")),
        };
        let description = match read_text(&doc, 3, "description") {
            Some(v) => v,
            None => return Err(member_failure_text("description", "is not a string")),
        };
        Ok(BbanField { label, length, type_, description, raw: doc })
    }
}

/// The IBAN format specification for one country.
#[derive(Debug, Clone, PartialEq)]
pub struct FormatSpec {
    /// The ISO 3166-1 alpha-2 country code.
    pub country_code: String,
    /// The country's name in English.
    pub country_name: String,
    /// The total IBAN length for this country.
    pub length: u32,
    /// The country's ISO 4217 currency code.
    pub currency: String,
    /// The currency's name in English.
    pub currency_name: String,
    /// Whether the country is in the SEPA zone.
    pub sepa: Option<bool>,
    /// Whether the country is in the SWIFT IBAN Registry.
    pub swift: Option<bool>,
    /// The format as a mask, such as `DEkk nnnn nnnn nnnn nnnn nn`.
    pub format_string: String,
    /// The registry's own sample IBAN. Structurally valid, not a real
    /// account, and its bank code often belongs to no institution.
    pub example: String,
    /// The BBAN broken into its segments, in order.
    pub bban_fields: Vec<BbanField>,
    /// The untouched response document.
    pub raw: Json,
}

impl Model for FormatSpec {
    open spec fn decodes(doc: JsonView) -> bool {
        &&& fits_fields(doc, 10)
        &&& text_ok(given(doc, 0, "country_code"@))
        &&& text_ok(given(doc, 1, "country_name"@))
        &&& count_ok(given(doc, 2, "length"@))
        &&& text_ok(given(doc, 3, "currency"@))
        &&& text_ok(given(doc, 4, "currency_name"@))
        &&& flag_ok(given(doc, 5, "sepa"@))
        &&& flag_ok(given(doc, 6, "swift"@))
        &&& text_ok(given(doc, 7, "format_string"@))
        &&& text_ok(given(doc, 8, "example"@))
        &&& list_ok(given(doc, 9, "bban_fields"@))
        &&& all_decode::<BbanField>(list_of(given(doc, 9, "bban_fields"@)))
    }

    open spec fn read_from(self, doc: JsonView) -> bool {
        &&& self.country_code@ == text_of(given(doc, 0, "country_code"@))
        &&& self.country_name@ == text_of(given(doc, 1, "country_name"@))
        &&& self.length == count_of(given(doc, 2, "length"@))
        &&& self.currency@ == text_of(given(doc, 3, "currency"@))
        &&& self.currency_name@ == text_of(given(doc, 4, "currency_name"@))
        &&& self.sepa == tri_of(given(doc, 5, "sepa"@))
        &&& self.swift == tri_of(given(doc, 6, "swift"@))
        &&& self.format_string@ == text_of(given(doc, 7, "format_string"@))
        &&& self.example@ == text_of(given(doc, 8, "example"@))
        &&& all_read_from(self.bban_fields@, list_of(given(doc, 9, "bban_fields"@)))
        &&& self.raw@ == doc
    }

    open spec fn failure(doc: JsonView) -> Seq<char> {
        if !fits_fields(doc, 10) {
            shape_failure(10)
        } else if !text_ok(given(doc, 0, "country_code"@)) {
            member_failure("country_code"@, "is not a string"@)
        } else if !text_ok(given(doc, 1, "country_name"@)) {
            member_failure("country_name"@, "is not a string"@)
        } else if !count_ok(given(doc, 2, "length"@)) {
            member_failure("length"@, "is not an integer from 0 to 4294967295"@)
        } else if !text_ok(given(doc, 3, "currency"@)) {
            member_failure("currency"@, "is not a string"@)
        } else if !text_ok(given(doc, 4, "currency_name"@)) {
            member_failure("currency_name"@, "is not a string"@)
        } else if !flag_ok(given(doc, 5, "sepa"@)) {
            member_failure("sepa"@, "is not a boolean"@)
        } else if !flag_ok(given(doc, 6, "swift"@)) {
            member_failure("swift"@, "is not a boolean"@)
        } else if !text_ok(given(doc, 7, "format_string"@)) {
            member_failure("format_string"@, "is not a string"@)
        } else if !text_ok(given(doc, 8, "example"@)) {
            member_failure("example"@, "is not a string"@)
        } else if !list_ok(given(doc, 9, "bban_fields"@)) {
            member_failure("bban_fields"@, "is not an array"@)
        } else if !all_decode::<BbanField>(list_of(given(doc, 9, "bban_fields"@))) {
            element_failure::<BbanField>("bban_fields"@, list_of(given(doc, 9, "bban_fields"@)), 0)
        } else {
            seq![]
        }
    }

    fn from_json(doc: Json) -> (r: Result<Self, String>) {
        if !fits(&doc, 10) {
            return Err(shape_failure_text(10));
        }
        let country_code = match read_text(&doc, 0, "country_code") {
            Some(v) => v,
            None => return Err(member_failure_text("country_code", "is not a string")),
        };
        let country_name = match read_text(&doc, 1, "country_name") {
            Some(v) => v,
            None => return Err(member_failure_text("country_name", "is not a string")),
        };
        let length = match read_count(&doc, 2, "length") {
            Some(v) => v,
            None => return Err(member_failure_text("length", "is not an integer from 0 to 4294967295")),
        };
        let currency = match read_text(&doc, 3, "currency") {
            Some(v) => v,
            None => return Err(member_failure_text("currency", "is not a string")),
        };
        let currency_name = match read_text(&doc, 4, "currency_name") {
            Some(v) => v,
            None => return Err(member_failure_text("currency_name", "is not a string")),
        };
        let sepa = match read_tri(&doc, 5, "sepa") {
            Some(v) => v,
            None => return Err(member_failure_text("sepa", "is not a boolean")),
        };
        let swift = match read_tri(&doc, 6, "swift") {
            Some(v) => v,
            None => return Err(member_failure_text("swift", "is not a boolean")),
        };
        let format_string = match read_text(&doc, 7, "format_string") {
            Some(v) => v,
            None => return Err(member_failure_text("format_string", "is not a string")),
        };
        let example = match read_text(&doc, 8, "example") {
            Some(v) => v,
            None => return Err(member_failure_text("example", "is not a string")),
        };
        let bban_fields = match read_list::<BbanField>(&doc, 9, "bban_fields") {
            Ok(v) => v,
            Err(m) => return Err(m),
        };
        Ok(FormatSpec { country_code, country_name, length, currency, currency_name, sepa, swift, format_string, example, bban_fields, raw: doc })
    }
}

/// The institution behind a SWIFT/BIC code.
#[derive(Debug, Clone, PartialEq)]
pub struct BankRecord {
    /// The full BIC, 8 or 11 characters.
    pub bic: String,
    /// The first eight characters, which identify the institution.
    pub bic8: String,
    /// The institution code, characters one to four.
    pub bank_code: String,
    /// The country code, characters five and six.
    pub country_code: String,
    /// The location code, characters seven and eight.
    pub location_code: String,
    /// The branch code, characters nine to eleven, where the BIC has one.
    pub branch_code: String,
    /// The institution's name.
    pub bank_name: String,
    /// The city on record for it.
    pub city: String,
    /// The country's name in English.
    pub country_name: String,
    /// Whether the institution is registered for SEPA schemes.
    pub sepa: Option<bool>,
    /// How the institution is classified, such as `private` or `central`
    /// (the member `type`).
    pub type_: String,
    /// Whether the institution is `active`, `merged` or `closed`.
    pub status: String,
    /// The untouched response document.
    pub raw: Json,
}

impl Model for BankRecord {
    open spec fn decodes(doc: JsonView) -> bool {
        &&& fits_fields(doc, 12)
        &&& text_ok(given(doc, 0, "bic"@))
        &&& text_ok(given(doc, 1, "bic8"@))
        &&& text_ok(given(doc, 2, "bank_code"@))
        &&& text_ok(given(doc, 3, "country_code"@))
        &&& text_ok(given(doc, 4, "location_code"@))
        &&& text_ok(given(doc, 5, "branch_code"@))
        &&& text_ok(given(doc, 6, "bank_name"@))
        &&& text_ok(given(doc, 7, "city"@))
        &&& text_ok(given(doc, 8, "country_name"@))
        &&& flag_ok(given(doc, 9, "sepa"@))
        &&& text_ok(given(doc, 10, "type"@))
        &&& text_ok(given(doc, 11, "status"@))
    }

    open spec fn read_from(self, doc: JsonView) -> bool {
        &&& self.bic@ == text_of(given(doc, 0, "bic"@))
        &&& self.bic8@ == text_of(given(doc, 1, "bic8"@))
        &&& self.bank_code@ == text_of(given(doc, 2, "bank_code"@))
        &&& self.country_code@ == text_of(given(doc, 3, "country_code"@))
        &&& self.location_code@ == text_of(given(doc, 4, "location_code"@))
        &&& self.branch_code@ == text_of(given(doc, 5, "branch_code"@))
        &&& self.bank_name@ == text_of(given(doc, 6, "bank_name"@))
        &&& self.city@ == text_of(given(doc, 7, "city"@))
        &&& self.country_name@ == text_of(given(doc, 8, "country_name"@))
        &&& self.sepa == tri_of(given(doc, 9, "sepa"@))
        &&& self.type_@ == text_of(given(doc, 10, "type"@))
        &&& self.status@ == text_of(given(doc, 11, "status"@))
        &&& self.raw@ == doc
    }

    open spec fn failure(doc: JsonView) -> Seq<char> {
        if !fits_fields(doc, 12) {
            shape_failure(12)
        } else if !text_ok(given(doc, 0, "bic"@)) {
            member_failure("bic"@, "is not a string"@)
        } else if !text_ok(given(doc, 1, "bic8"@)) {
            member_failure("bic8"@, "is not a string"@)
        } else if !text_ok(given(doc, 2, "bank_code"@)) {
            member_failure("bank_code"@, "is not a string"@)
        } else if !text_ok(given(doc, 3, "country_code"@)) {
            member_failure("country_code"@, "is not a string"@)
        } else if !text_ok(given(doc, 4, "location_code"@)) {
            member_failure("location_code"@, "is not a string"@)
        } else if !text_ok(given(doc, 5, "branch_code"@)) {
            member_failure("branch_code"@, "is not a string"@)
        } else if !text_ok(given(doc, 6, "bank_name"@)) {
            member_failure("bank_name"@, "is not a string"@)
        } else if !text_ok(given(doc, 7, "city"@)) {
            member_failure("city"@, "is not a string"@)
        } else if !text_ok(given(doc, 8, "country_name"@)) {
            member_failure("country_name"@, "is not a string"@)
        } else if !flag_ok(given(doc, 9, "sepa"@)) {
            member_failure("sepa"@, "is not a boolean"@)
        } else if !text_ok(given(doc, 10, "type"@)) {
            member_failure("type"@, "is not a string"@)
        } else if !text_ok(given(doc, 11, "status"@)) {
            member_failure("status"@, "is not a string"@)
        } else {
            seq![]
        }
    }

    fn from_json(doc: Json) -> (r: Result<Self, String>) {
        if !fits(&doc, 12) {
            return Err(shape_failure_text(12));
        }
        let bic = match read_text(&doc, 0, "bic") {
            Some(v) => v,
            None => return Err(member_failure_text("bic", "is not a string")),
        };
        let bic8 = match read_text(&doc, 1, "bic8") {
            Some(v) => v,
            None => return Err(member_failure_text("bic8", "is not a string")),
        };
        let bank_code = match read_text(&doc, 2, "bank_code") {
            Some(v) => v,
            None => return Err(member_failure_text("bank_code", "is not a string")),
        };
        let country_code = match read_text(&doc, 3, "country_code") {
            Some(v) => v,
            None => return Err(member_failure_text("country_code", "is not a string")),
        };
        let location_code = match read_text(&doc, 4, "location_code") {
            Some(v) => v,
            None => return Err(member_failure_text("location_code", "is not a string")),
        };
        let branch_code = match read_text(&doc, 5, "branch_code") {
            Some(v) => v,
            None => return Err(member_failure_text("branch_code", "is not a string")),
        };
        let bank_name = match read_text(&doc, 6, "bank_name") {
            Some(v) => v,
            None => return Err(member_failure_text("bank_name", "is not a string")),
        };
        let city = match read_text(&doc, 7, "city") {
            Some(v) => v,
            None => return Err(member_failure_text("city", "is not a string")),
        };
        let country_name = match read_text(&doc, 8, "country_name") {
            Some(v) => v,
            None => return Err(member_failure_text("country_name", "is not a string")),
        };
        let sepa = match read_tri(&doc, 9, "sepa") {
            Some(v) => v,
            None => return Err(member_failure_text("sepa", "is not a boolean")),
        };
        let type_ = match read_text(&doc, 10, "type") {
            Some(v) => v,
            None => return Err(member_failure_text("type", "is not a string")),
        };
        let status = match read_text(&doc, 11, "status") {
            Some(v) => v,
            None => return Err(member_failure_text("status", "is not a string")),
        };
        Ok(BankRecord { bic, bic8, bank_code, country_code, location_code, branch_code, bank_name, city, country_name, sepa, type_, status, raw: doc })
    }
}

/// The string in the member `name` of `doc`, empty when there is none.
pub open spec fn member_text(doc: JsonView, name: Seq<char>) -> Seq<char> {
    match member(doc, name) {
        Some(JsonView::String(t)) => t,
        _ => seq![],
    }
}

/// The boolean in the member `name` of `doc`, `false` when there is none.
pub open spec fn member_flag(doc: JsonView, name: Seq<char>) -> bool {
    match member(doc, name) {
        Some(JsonView::Bool(b)) => b,
        _ => false,
    }
}

/// The boolean in the member `name` of `doc`, if it holds one.
pub open spec fn member_tri(doc: JsonView, name: Seq<char>) -> Option<bool> {
    match member(doc, name) {
        Some(JsonView::Bool(b)) => Some(b),
        _ => None,
    }
}

/// The integer in the member `name` of `doc`, zero when there is none.
pub open spec fn member_count(doc: JsonView, name: Seq<char>) -> int {
    match member(doc, name) {
        Some(JsonView::Number(NumberView::PosInt(u))) => u as int,
        _ => 0,
    }
}

/// The elements of the array in the member `name` of `doc`, none when
/// there is none.
pub open spec fn member_items(doc: JsonView, name: Seq<char>) -> Seq<JsonView> {
    match member(doc, name) {
        Some(JsonView::Array(items)) => items,
        _ => seq![],
    }
}

/// The element at position `i` of the array `doc`, if there is one.
pub open spec fn item_at(doc: JsonView, i: int) -> Option<JsonView> {
    match doc {
        JsonView::Array(items) => if 0 <= i < items.len() {
            Some(items[i])
        } else {
            None
        },
        _ => None,
    }
}

/// The string at position `i` of the array `doc`, empty when there is none.
pub open spec fn item_text(doc: JsonView, i: int) -> Seq<char> {
    match item_at(doc, i) {
        Some(JsonView::String(t)) => t,
        _ => seq![],
    }
}

/// The boolean at position `i` of the array `doc`, `false` when there is
/// none.
pub open spec fn item_flag(doc: JsonView, i: int) -> bool {
    match item_at(doc, i) {
        Some(JsonView::Bool(b)) => b,
        _ => false,
    }
}

/// The boolean at position `i` of the array `doc`, if it holds one.
pub open spec fn item_tri(doc: JsonView, i: int) -> Option<bool> {
    match item_at(doc, i) {
        Some(JsonView::Bool(b)) => Some(b),
        _ => None,
    }
}

/// The integer at position `i` of the array `doc`, zero when there is none.
pub open spec fn item_count(doc: JsonView, i: int) -> int {
    match item_at(doc, i) {
        Some(JsonView::Number(NumberView::PosInt(u))) => u as int,
        _ => 0,
    }
}

/// The elements of the array at position `i` of the array `doc`, none
/// when there is none.
pub open spec fn item_items(doc: JsonView, i: int) -> Seq<JsonView> {
    match item_at(doc, i) {
        Some(JsonView::Array(items)) => items,
        _ => seq![],
    }
}

/// What a ValidationResult read from an array holds: each field is the element at
/// the field's position, or the field's default when there is none or it
/// is `null`; and `raw` is the array itself.
pub proof fn lemma_validation_result_reads_its_positions(doc: JsonView, v: ValidationResult)
    requires
        doc is Array,
        ValidationResult::decodes(doc),
        v.read_from(doc),
    ensures
        v.valid == item_flag(doc, 0),
        v.iban@ == item_text(doc, 1),
        v.formatted@ == item_text(doc, 2),
        v.check_digits@ == item_text(doc, 3),
        v.bban@ == item_text(doc, 4),
        v.country@ == item_text(doc, 5),
        v.country_name@ == item_text(doc, 6),
        v.bank_name@ == item_text(doc, 7),
        v.bank_type@ == item_text(doc, 8),
        v.bic@ == item_text(doc, 9),
        v.bank_city@ == item_text(doc, 10),
        v.bank_code@ == item_text(doc, 11),
        v.branch_code@ == item_text(doc, 12),
        v.account_number@ == item_text(doc, 13),
        v.national_check_valid == item_tri(doc, 14),
        v.currency@ == item_text(doc, 15),
        v.currency_name@ == item_text(doc, 16),
        v.transfer_type@ == item_text(doc, 17),
        v.sepa == item_tri(doc, 18),
        v.flag@ == item_text(doc, 19),
        v.error@ == item_text(doc, 20),
        v.error_code@ == item_text(doc, 21),
        v.raw@ == doc,
{
}

/// What a BatchResult read from an array holds: each field is the element at
/// the field's position, or the field's default when there is none or it
/// is `null`; and `raw` is the array itself.
pub proof fn lemma_batch_result_reads_its_positions(doc: JsonView, v: BatchResult)
    requires
        doc is Array,
        BatchResult::decodes(doc),
        v.read_from(doc),
    ensures
        v.count as int == item_count(doc, 0),
        v.valid_count as int == item_count(doc, 1),
        v.invalid_count as int == item_count(doc, 2),
        v.results@.len() == item_items(doc, 3).len(),
        forall|j: int| 0 <= j < v.results@.len() ==> #[trigger] v.results@[j].read_from(item_items(doc, 3)[j]),
        v.raw@ == doc,
{
}

/// What a BbanField read from an array holds: each field is the element at
/// the field's position, or the field's default when there is none or it
/// is `null`; and `raw` is the array itself.
pub proof fn lemma_bban_field_reads_its_positions(doc: JsonView, v: BbanField)
    requires
        doc is Array,
        BbanField::decodes(doc),
        v.read_from(doc),
    ensures
        v.label@ == item_text(doc, 0),
        v.length as int == item_count(doc, 1),
        v.type_@ == item_text(doc, 2),
        v.description@ == item_text(doc, 3),
        v.raw@ == doc,
{
}

/// What a FormatSpec read from an array holds: each field is the element at
/// the field's position, or the field's default when there is none or it
/// is `null`; and `raw` is the array itself.
pub proof fn lemma_format_spec_reads_its_positions(doc: JsonView, v: FormatSpec)
    requires
        doc is Array,
        FormatSpec::decodes(doc),
        v.read_from(doc),
    ensures
        v.country_code@ == item_text(doc, 0),
        v.country_name@ == item_text(doc, 1),
        v.length as int == item_count(doc, 2),
        v.currency@ == item_text(doc, 3),
        v.currency_name@ == item_text(doc, 4),
        v.sepa == item_tri(doc, 5),
        v.swift == item_tri(doc, 6),
        v.format_string@ == item_text(doc, 7),
        v.example@ == item_text(doc, 8),
        v.bban_fields@.len() == item_items(doc, 9).len(),
        forall|j: int| 0 <= j < v.bban_fields@.len() ==> #[trigger] v.bban_fields@[j].read_from(item_items(doc, 9)[j]),
        v.raw@ == doc,
{
}

/// What a BankRecord read from an array holds: each field is the element at
/// the field's position, or the field's default when there is none or it
/// is `null`; and `raw` is the array itself.
pub proof fn lemma_bank_record_reads_its_positions(doc: JsonView, v: BankRecord)
    requires
        doc is Array,
        BankRecord::decodes(doc),
        v.read_from(doc),
    ensures
        v.bic@ == item_text(doc, 0),
        v.bic8@ == item_text(doc, 1),
        v.bank_code@ == item_text(doc, 2),
        v.country_code@ == item_text(doc, 3),
        v.location_code@ == item_text(doc, 4),
        v.branch_code@ == item_text(doc, 5),
        v.bank_name@ == item_text(doc, 6),
        v.city@ == item_text(doc, 7),
        v.country_name@ == item_text(doc, 8),
        v.sepa == item_tri(doc, 9),
        v.type_@ == item_text(doc, 10),
        v.status@ == item_text(doc, 11),
        v.raw@ == doc,
{
}

/// What a ValidationResult read from an object holds: each field is the value of
/// the member of the field's name, or the field's default when the member
/// is absent or `null`; and `raw` is the object itself.
pub proof fn lemma_validation_result_reads_its_members(doc: JsonView, v: ValidationResult)
    requires
        doc is Object,
        ValidationResult::decodes(doc),
        v.read_from(doc),
    ensures
        v.valid == member_flag(doc, "valid"@),
        v.iban@ == member_text(doc, "iban"@),
        v.formatted@ == member_text(doc, "formatted"@),
        v.check_digits@ == member_text(doc, "check_digits"@),
        v.bban@ == member_text(doc, "bban"@),
        v.country@ == member_text(doc, "country"@),
        v.country_name@ == member_text(doc, "country_name"@),
        v.bank_name@ == member_text(doc, "bank_name"@),
        v.bank_type@ == member_text(doc, "bank_type"@),
        v.bic@ == member_text(doc, "bic"@),
        v.bank_city@ == member_text(doc, "bank_city"@),
        v.bank_code@ == member_text(doc, "bank_code"@),
        v.branch_code@ == member_text(doc, "branch_code"@),
        v.account_number@ == member_text(doc, "account_number"@),
        v.national_check_valid == member_tri(doc, "national_check_valid"@),
        v.currency@ == member_text(doc, "currency"@),
        v.currency_name@ == member_text(doc, "currency_name"@),
        v.transfer_type@ == member_text(doc, "transfer_type"@),
        v.sepa == member_tri(doc, "sepa"@),
        v.flag@ == member_text(doc, "flag"@),
        v.error@ == member_text(doc, "error"@),
        v.error_code@ == member_text(doc, "error_code"@),
        v.raw@ == doc,
{
}

/// What a BatchResult read from an object holds: each field is the value of
/// the member of the field's name, or the field's default when the member
/// is absent or `null`; and `raw` is the object itself.
pub proof fn lemma_batch_result_reads_its_members(doc: JsonView, v: BatchResult)
    requires
        doc is Object,
        BatchResult::decodes(doc),
        v.read_from(doc),
    ensures
        v.count as int == member_count(doc, "count"@),
        v.valid_count as int == member_count(doc, "valid_count"@),
        v.invalid_count as int == member_count(doc, "invalid_count"@),
        v.results@.len() == member_items(doc, "results"@).len(),
        forall|i: int| 0 <= i < v.results@.len() ==> #[trigger] v.results@[i].read_from(member_items(doc, "results"@)[i]),
        v.raw@ == doc,
{
}

/// What a BbanField read from an object holds: each field is the value of
/// the member of the field's name, or the field's default when the member
/// is absent or `null`; and `raw` is the object itself.
pub proof fn lemma_bban_field_reads_its_members(doc: JsonView, v: BbanField)
    requires
        doc is Object,
        BbanField::decodes(doc),
        v.read_from(doc),
    ensures
        v.label@ == member_text(doc, "label"@),
        v.length as int == member_count(doc, "length"@),
        v.type_@ == member_text(doc, "type"@),
        v.description@ == member_text(doc, "description"@),
        v.raw@ == doc,
{
}

/// What a FormatSpec read from an object holds: each field is the value of
/// the member of the field's name, or the field's default when the member
/// is absent or `null`; and `raw` is the object itself.
pub proof fn lemma_format_spec_reads_its_members(doc: JsonView, v: FormatSpec)
    requires
        doc is Object,
        FormatSpec::decodes(doc),
        v.read_from(doc),
    ensures
        v.country_code@ == member_text(doc, "country_code"@),
        v.country_name@ == member_text(doc, "country_name"@),
        v.length as int == member_count(doc, "length"@),
        v.currency@ == member_text(doc, "currency"@),
        v.currency_name@ == member_text(doc, "currency_name"@),
        v.sepa == member_tri(doc, "sepa"@),
        v.swift == member_tri(doc, "swift"@),
        v.format_string@ == member_text(doc, "format_string"@),
        v.example@ == member_text(doc, "example"@),
        v.bban_fields@.len() == member_items(doc, "bban_fields"@).len(),
        forall|i: int| 0 <= i < v.bban_fields@.len() ==> #[trigger] v.bban_fields@[i].read_from(member_items(doc, "bban_fields"@)[i]),
        v.raw@ == doc,
{
}

/// What a BankRecord read from an object holds: each field is the value of
/// the member of the field's name, or the field's default when the member
/// is absent or `null`; and `raw` is the object itself.
pub proof fn lemma_bank_record_reads_its_members(doc: JsonView, v: BankRecord)
    requires
        doc is Object,
        BankRecord::decodes(doc),
        v.read_from(doc),
    ensures
        v.bic@ == member_text(doc, "bic"@),
        v.bic8@ == member_text(doc, "bic8"@),
        v.bank_code@ == member_text(doc, "bank_code"@),
        v.country_code@ == member_text(doc, "country_code"@),
        v.location_code@ == member_text(doc, "location_code"@),
        v.branch_code@ == member_text(doc, "branch_code"@),
        v.bank_name@ == member_text(doc, "bank_name"@),
        v.city@ == member_text(doc, "city"@),
        v.country_name@ == member_text(doc, "country_name"@),
        v.sepa == member_tri(doc, "sepa"@),
        v.type_@ == member_text(doc, "type"@),
        v.status@ == member_text(doc, "status"@),
        v.raw@ == doc,
{
}

/// An explicit `null` member is the same as an absent one: the object with
/// the `null` member reads as each model exactly when the object without it
/// does (and field by field the same, as `given` reads both the same).
pub proof fn lemma_null_member_keeps_every_model(es: Seq<(Seq<char>, JsonView)>, name: Seq<char>)
    requires
        entry_get(es, name) is None,
    ensures
        ValidationResult::decodes(JsonView::Object(es.push((name, JsonView::Null))))
            == ValidationResult::decodes(JsonView::Object(es)),
        BatchResult::decodes(JsonView::Object(es.push((name, JsonView::Null))))
            == BatchResult::decodes(JsonView::Object(es)),
        BbanField::decodes(JsonView::Object(es.push((name, JsonView::Null))))
            == BbanField::decodes(JsonView::Object(es)),
        FormatSpec::decodes(JsonView::Object(es.push((name, JsonView::Null))))
            == FormatSpec::decodes(JsonView::Object(es)),
        BankRecord::decodes(JsonView::Object(es.push((name, JsonView::Null))))
            == BankRecord::decodes(JsonView::Object(es)),
{
    lemma_null_member_reads_as_absent(es, name);
}

} // verus!
