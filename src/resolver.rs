//! Sheet references: a title, or a 1-based ordinal that the upstream
//! metadata turns into a title.

use vstd::prelude::*;
use crate::models::{ErrorDetails, Failure, FailureKind, SheetMetadata};
use crate::text::{
    digits_value, int_text, is_digit_run, parse_i32, parse_u16, parsed_i32, parsed_u16, percent_decoded, plus_as_space,
    push_signed_decimal, replace_plus, url_decode,
};

verus! {

/// A reference as the resolver reads it: `+` is a space, then percent-escapes
/// are decoded; where decoding fails the text with spaces is kept.
pub open spec fn decoded_reference(raw: Seq<char>) -> Seq<char> {
    match percent_decoded(plus_as_space(raw)) {
        Some(d) => d,
        None => plus_as_space(raw),
    }
}

/// The ordinal a reference names, if its decoded text is an `i32`.
pub open spec fn reference_ordinal(raw: Seq<char>) -> Option<i32> {
    parsed_i32(decoded_reference(raw))
}

/// Decodes a raw sheet reference.
pub fn decode_reference(raw: &str) -> (r: String)
    ensures
        r@ == decoded_reference(raw@),
{
    let spaced = replace_plus(raw);
    match url_decode(spaced.as_str()) {
        Some(d) => d,
        None => spaced,
    }
}

/// A sheet reference, read.
pub enum SheetRef {
    Title(String),
    Ordinal(i32),
}

/// Reads a raw reference as an ordinal when it is an integer, else as a title.
pub fn classify_reference(raw: &str) -> (r: SheetRef)
    ensures
        match r {
            SheetRef::Title(t) => reference_ordinal(raw@) is None && t@ == decoded_reference(raw@),
            SheetRef::Ordinal(n) => reference_ordinal(raw@) == Some(n),
        },
{
    let s = decode_reference(raw);
    match parse_i32(s.as_str()) {
        Some(n) => SheetRef::Ordinal(n),
        None => SheetRef::Title(s),
    }
}

/// The first step of resolving a reference.
pub enum Resolution {
    /// The title is known without asking upstream.
    Resolved(String),
    /// The ordinal must be looked up in the spreadsheet's metadata.
    NeedsMetadata(i32),
    /// The reference can never name a sheet.
    Failed(Failure),
}

/// Resolves what can be resolved without the upstream service.
pub fn begin_resolve(raw: &str) -> (r: Resolution)
    ensures
        match r {
            Resolution::Resolved(t) => reference_ordinal(raw@) is None && t@ == decoded_reference(raw@),
            Resolution::NeedsMetadata(n) => reference_ordinal(raw@) == Some(n) && n != 0,
            Resolution::Failed(f) => reference_ordinal(raw@) == Some(0i32) && f.kind
                == FailureKind::InvalidOrdinal,
        },
{
    match classify_reference(raw) {
        SheetRef::Title(t) => Resolution::Resolved(t),
        SheetRef::Ordinal(n) => {
            if n == 0 {
                Resolution::Failed(
                    Failure {
                        kind: FailureKind::InvalidOrdinal,
                        message: String::from_str("Sheet number cannot be 0"),
                    },
                )
            } else {
                Resolution::NeedsMetadata(n)
            }
        },
    }
}

/// The status an upstream error is reported with: its own when it is a
/// number that fits a `u16`, else 400.
pub open spec fn status_or_default(status: Option<String>) -> u16 {
    match status {
        Some(s) => match parsed_u16(s@) {
            Some(v) => v,
            None => 400,
        },
        None => 400,
    }
}

/// The status for an upstream-reported error.
pub fn upstream_status(status: &Option<String>) -> (r: u16)
    ensures
        r == status_or_default(*status),
        status is None ==> r == 400,
{
    match status {
        Some(s) => match parse_u16(s.as_str()) {
            Some(v) => v,
            None => 400,
        },
        None => 400,
    }
}

/// The failure for an upstream-reported error: its message and status.
pub fn upstream_failure(err: &ErrorDetails) -> (r: Failure)
    ensures
        r.kind == FailureKind::UpstreamRejected(status_or_default(err.status)),
        r.message@ == err.message@,
{
    Failure {
        kind: FailureKind::UpstreamRejected(upstream_status(&err.status)),
        message: err.message.clone(),
    }
}

/// What looking up ordinal `n` in `meta` gives: the upstream error if there
/// is one, else the title at position `n - 1`, else `SheetNotFound`.
pub open spec fn selected_sheet(n: i32, meta: SheetMetadata) -> Result<Seq<char>, FailureKind> {
    match meta.error {
        Some(e) => Err(FailureKind::UpstreamRejected(status_or_default(e.status))),
        None => if 1 <= n <= meta.sheets@.len() {
            Ok(meta.sheets@[n - 1].properties.title@)
        } else {
            Err(FailureKind::SheetNotFound)
        },
    }
}

/// The message for an ordinal with no sheet.
pub open spec fn no_sheet_message(n: i32) -> Seq<char> {
    "There is no sheet number "@ + int_text(n as int)
}

/// Looks up the title of sheet `n` (1-based) in the spreadsheet's metadata.
pub fn select_sheet(n: i32, meta: &SheetMetadata) -> (r: Result<String, Failure>)
    ensures
        match r {
            Ok(t) => selected_sheet(n, *meta) == Ok::<Seq<char>, FailureKind>(t@),
            Err(f) => {
                &&& selected_sheet(n, *meta) == Err::<Seq<char>, FailureKind>(f.kind)
                &&& f.kind == FailureKind::SheetNotFound ==> f.message@ == no_sheet_message(n)
                &&& meta.error is Some ==> f.message@ == meta.error->0.message@
            },
        },
{
    match &meta.error {
        Some(e) => Err(upstream_failure(e)),
        None => {
            if 1 <= n && (n as usize) <= meta.sheets.len() {
                Ok(meta.sheets[(n - 1) as usize].properties.title.clone())
            } else {
                let mut message = String::from_str("There is no sheet number ");
                push_signed_decimal(&mut message, n);
                Err(Failure { kind: FailureKind::SheetNotFound, message })
            }
        },
    }
}

/// The sheet titles of a metadata response, or its upstream error.
pub fn sheet_titles(meta: &SheetMetadata) -> (r: Result<Vec<String>, Failure>)
    ensures
        match r {
            Ok(ts) => meta.error is None && ts@.len() == meta.sheets@.len() && forall|i: int|
                0 <= i < ts@.len() ==> #[trigger] ts@[i]@ == meta.sheets@[i].properties.title@,
            Err(f) => meta.error is Some && f.kind == FailureKind::UpstreamRejected(
                status_or_default(meta.error->0.status),
            ) && f.message@ == meta.error->0.message@,
        },
{
    match &meta.error {
        Some(e) => Err(upstream_failure(e)),
        None => {
            let mut titles: Vec<String> = Vec::new();
            let mut i: usize = 0;
            while i < meta.sheets.len()
                invariant
                    i <= meta.sheets@.len(),
                    titles@.len() == i,
                    forall|k: int|
                        0 <= k < i ==> #[trigger] titles@[k]@ == meta.sheets@[k].properties.title@,
                decreases meta.sheets@.len() - i,
            {
                titles.push(meta.sheets[i].properties.title.clone());
                i = i + 1;
            }
            Ok(titles)
        },
    }
}

/// A reference that reads as `0` is the ordinal zero, which `begin_resolve`
/// refuses with `InvalidOrdinal` (status 400) before any metadata is read.
pub proof fn lemma_zero_reference(raw: Seq<char>)
    requires
        decoded_reference(raw) == "0"@,
    ensures
        reference_ordinal(raw) == Some(0i32),
        FailureKind::InvalidOrdinal.status_of() == 400,
{
    reveal_strlit("0");
    let s = decoded_reference(raw);
    assert(is_digit_run(s));
    assert(s.drop_last() =~= Seq::<char>::empty());
    assert(digits_value(s.drop_last()) == 0);
    assert(s.last() == '0');
    assert(digits_value(s) == 0);
}

/// The ordinal one past the last sheet names no sheet: `SheetNotFound`, with
/// status 404.
pub proof fn lemma_one_past_last(n: i32, meta: SheetMetadata)
    requires
        meta.error is None,
        n as int == meta.sheets@.len() + 1,
    ensures
        selected_sheet(n, meta) == Err::<Seq<char>, FailureKind>(FailureKind::SheetNotFound),
        FailureKind::SheetNotFound.status_of() == 404,
{
}

} // verus!
