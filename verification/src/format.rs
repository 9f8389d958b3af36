//! The generic response formatter.
//!
//! Given a JSON value that should be an array of objects, an ordered list of
//! column headers, a positionally matching list of field keys and an
//! optional per-field transform, it renders either a table — one header row,
//! one row per element, a missing or odd field degrading to `N/A` rather
//! than failing the render — or the value itself as pretty JSON, untouched
//! by the column selection.
use vstd::prelude::*;

verus! {

use crate::json::{JsonValue, json_lookup, json_pretty, spec_as_str, spec_as_u64, spec_as_bool,
    spec_trunc_u64};
use crate::strutil::{dec_str, str_eq, u64_to_string};
use crate::table::{TextRow, TextTable, format_human_duration, human_duration, row_model,
    table_model, table_render};

/// How a command wants its result shown.
pub enum OutputType {
    HumanReadable,
    Json,
}

/// A value that binds itself to the formatter.
pub trait FormatterValue {
    spec fn spec_value(&self) -> JsonValue;

    fn value(&self) -> (r: &JsonValue)
        ensures
            *r == self.spec_value(),
    ;
}

/// A type that renders itself through the formatter.
pub trait Formatter {
    spec fn spec_format(&self, output_type: OutputType) -> Seq<char>;

    fn format(&self, output_type: OutputType) -> (r: String)
        ensures
            r@ == self.spec_format(output_type),
    ;
}

/// The per-field display transforms the resource views use. Each one turns a
/// field name and the raw value at that field into a display cell.
#[derive(Clone, Copy, Debug, PartialEq, Eq)]
pub enum Transform {
    /// `revision` zero (or no number) shows as `N/A`; `published` shows as a
    /// check or cross mark.
    Versions,
    /// `optional` shows as `Yes`/`No`; other fields fall back to the string
    /// content or empty.
    Settings,
    /// `in_sync` shows as a centered check or cross mark; `uptime` shows as
    /// a right-aligned human-readable duration, `N/A` when it is no number.
    Screens,
    /// `duration` shows as a human-readable duration of the truncated
    /// number of seconds.
    Durations,
}

/// The cell for a field with no transform: the string content, or `N/A`
/// when the field is absent, null or not a string.
pub open spec fn na_cell(v: JsonValue) -> (Seq<char>, u8) {
    (
        match spec_as_str(v) {
            Some(s) => s,
            None => "N/A"@,
        },
        0u8,
    )
}

/// The cell a transform produces for a field.
pub open spec fn spec_transform_cell(t: Transform, field: Seq<char>, v: JsonValue) -> (
    Seq<char>,
    u8,
) {
    match t {
        Transform::Versions => if field == "revision"@ {
            let n = match spec_as_u64(v) {
                Some(n) => n,
                None => 0u64,
            };
            (
                if n > 0 {
                    dec_str(n as nat)
                } else {
                    "N/A"@
                },
                0u8,
            )
        } else if field == "published"@ {
            (
                if spec_as_bool(v) == Some(true) {
                    "\u{2705}"@
                } else {
                    "\u{274c}"@
                },
                0u8,
            )
        } else {
            na_cell(v)
        },
        Transform::Settings => if field == "optional"@ {
            (
                if spec_as_bool(v) == Some(true) {
                    "Yes"@
                } else {
                    "No"@
                },
                0u8,
            )
        } else {
            (
                match spec_as_str(v) {
                    Some(s) => s,
                    None => Seq::<char>::empty(),
                },
                0u8,
            )
        },
        Transform::Screens => if field == "in_sync"@ {
            (
                if spec_as_bool(v) == Some(true) {
                    "\u{2705}"@
                } else {
                    "\u{274c}"@
                },
                1u8,
            )
        } else if field == "uptime"@ {
            (
                match spec_as_u64(v) {
                    Some(n) => human_duration(n),
                    None => "N/A"@,
                },
                2u8,
            )
        } else {
            na_cell(v)
        },
        Transform::Durations => if field == "duration"@ {
            (human_duration(spec_trunc_u64(v)), 0u8)
        } else {
            na_cell(v)
        },
    }
}

/// The cell shown for a field: by the transform when one is given, else the
/// plain fallback.
pub open spec fn spec_cell(t: Option<Transform>, field: Seq<char>, v: JsonValue) -> (
    Seq<char>,
    u8,
) {
    match t {
        Some(tr) => spec_transform_cell(tr, field, v),
        None => na_cell(v),
    }
}

/// The table row for one array element.
pub open spec fn spec_row(t: Option<Transform>, fields: Seq<Seq<char>>, elem: JsonValue) -> Seq<
    (Seq<char>, u8),
> {
    Seq::new(fields.len(), |j: int| spec_cell(t, fields[j], json_lookup(elem, fields[j])))
}

/// The data rows: one per element when the value is an array, none
/// otherwise.
pub open spec fn spec_rows(t: Option<Transform>, fields: Seq<Seq<char>>, v: JsonValue) -> Seq<
    Seq<(Seq<char>, u8)>,
> {
    match v {
        JsonValue::Arr(items) => items@.map_values(|e: JsonValue| spec_row(t, fields, e)),
        _ => Seq::empty(),
    }
}

/// The header row: the column names, left-aligned.
pub open spec fn header_row(cols: Seq<Seq<char>>) -> Seq<(Seq<char>, u8)> {
    Seq::new(cols.len(), |j: int| (cols[j], 0u8))
}

/// The whole table model a render shows.
pub open spec fn spec_table(
    cols: Seq<Seq<char>>,
    fields: Seq<Seq<char>>,
    v: JsonValue,
    t: Option<Transform>,
) -> Seq<Seq<(Seq<char>, u8)>> {
    seq![header_row(cols)] + spec_rows(t, fields, v)
}

/// What a format call returns: the rendered table in human-readable mode,
/// the value itself pretty-printed in JSON mode.
pub open spec fn spec_format_value(
    output_type: OutputType,
    cols: Seq<Seq<char>>,
    fields: Seq<Seq<char>>,
    v: JsonValue,
    t: Option<Transform>,
) -> Seq<char> {
    match output_type {
        OutputType::HumanReadable => table_render(spec_table(cols, fields, v, t)),
        OutputType::Json => json_pretty(v, 0),
    }
}

impl Transform {
    /// The display cell for one field of one element.
    pub fn apply(&self, field: &str, v: &JsonValue) -> (r: (String, u8))
        ensures
            (r.0@, r.1) == spec_transform_cell(*self, field@, *v),
    {
        match self {
            Transform::Versions => {
                if str_eq(field, "revision") {
                    let n = match v.as_u64() {
                        Some(n) => n,
                        None => 0u64,
                    };
                    if n > 0 {
                        (u64_to_string(n), 0u8)
                    } else {
                        ("N/A".to_owned(), 0u8)
                    }
                } else if str_eq(field, "published") {
                    if bool_field(v) {
                        ("\u{2705}".to_owned(), 0u8)
                    } else {
                        ("\u{274c}".to_owned(), 0u8)
                    }
                } else {
                    (na_fallback(v), 0u8)
                }
            },
            Transform::Settings => {
                if str_eq(field, "optional") {
                    if bool_field(v) {
                        ("Yes".to_owned(), 0u8)
                    } else {
                        ("No".to_owned(), 0u8)
                    }
                } else {
                    match v.as_str() {
                        Some(s) => (s.to_owned(), 0u8),
                        None => (String::new(), 0u8),
                    }
                }
            },
            Transform::Screens => {
                if str_eq(field, "in_sync") {
                    if bool_field(v) {
                        ("\u{2705}".to_owned(), 1u8)
                    } else {
                        ("\u{274c}".to_owned(), 1u8)
                    }
                } else if str_eq(field, "uptime") {
                    match v.as_u64() {
                        Some(n) => (format_human_duration(n), 2u8),
                        None => ("N/A".to_owned(), 2u8),
                    }
                } else {
                    (na_fallback(v), 0u8)
                }
            },
            Transform::Durations => {
                if str_eq(field, "duration") {
                    (format_human_duration(v.trunc_u64()), 0u8)
                } else {
                    (na_fallback(v), 0u8)
                }
            },
        }
    }
}

/// The boolean content of a field, `false` for anything that is no boolean.
fn bool_field(v: &JsonValue) -> (r: bool)
    ensures
        r == (spec_as_bool(*v) == Some(true)),
{
    match v.as_bool() {
        Some(b) => b,
        None => false,
    }
}

/// The plain fallback text: string content or `N/A`.
fn na_fallback(v: &JsonValue) -> (r: String)
    ensures
        (r@, 0u8) == na_cell(*v),
{
    match v.as_str() {
        Some(s) => s.to_owned(),
        None => "N/A".to_owned(),
    }
}

/// Renders a value for the terminal.
///
/// In human-readable mode the result is a table: the column names as a
/// header row, then, when the value is a JSON array, one row per element,
/// each cell read from the element by the positionally matching field key
/// and shown through the transform — or, with none, as the field's string
/// content with `N/A` for anything absent or odd. A value that is no array
/// renders as the header row alone. In JSON mode the result is the whole
/// value pretty-printed, the column selection ignored.
#[verifier::loop_isolation(false)]
pub fn format_value<T: FormatterValue>(
    output_type: OutputType,
    column_names: Vec<&str>,
    field_names: Vec<&str>,
    value: &T,
    value_transformer: Option<Transform>,
) -> (r: String)
    ensures
        r@ == spec_format_value(
            output_type,
            column_names.deep_view(),
            field_names.deep_view(),
            value.spec_value(),
            value_transformer,
        ),
{
    match output_type {
        OutputType::Json => value.value().to_pretty_string(),
        OutputType::HumanReadable => {
            let ghost cols = column_names.deep_view();
            let ghost fields = field_names.deep_view();
            let mut table = TextTable::new();
            let mut header = TextRow::new();
            let ncols = column_names.len();
            let mut i: usize = 0;
            proof {
                assert(row_model(header) =~= header_row(cols).take(0));
            }
            while i < ncols
                invariant
                    i <= ncols,
                    row_model(header) == header_row(cols).take(i as int),
                decreases ncols - i,
            {
                header.push_left(column_names[i]);
                proof {
                    assert(column_names@[i as int]@ == cols[i as int]);
                    assert(header_row(cols).take(i + 1) =~= header_row(cols).take(i as int).push(
                        (cols[i as int], 0u8),
                    ));
                }
                i = i + 1;
            }
            proof {
                assert(header_row(cols).take(ncols as int) =~= header_row(cols));
            }
            table.add_row(header);
            let v = value.value();
            let null_value = JsonValue::Null;
            match v {
                JsonValue::Arr(items) => {
                    let nrows = items.len();
                    let nfields = field_names.len();
                    let mut k: usize = 0;
                    proof {
                        assert(table_model(table) =~= seq![header_row(cols)] + spec_rows(
                            value_transformer,
                            fields,
                            value.spec_value(),
                        ).take(0));
                    }
                    while k < nrows
                        invariant
                            k <= nrows,
                            table_model(table) == seq![header_row(cols)] + spec_rows(
                                value_transformer,
                                fields,
                                value.spec_value(),
                            ).take(k as int),
                        decreases nrows - k,
                    {
                        let elem = &items[k];
                        let mut row = TextRow::new();
                        let mut j: usize = 0;
                        proof {
                            assert(row_model(row) =~= spec_row(
                                value_transformer,
                                fields,
                                *elem,
                            ).take(0));
                        }
                        while j < nfields
                            invariant
                                j <= nfields,
                                row_model(row) == spec_row(value_transformer, fields, *elem).take(
                                    j as int,
                                ),
                            decreases nfields - j,
                        {
                            let field = field_names[j];
                            proof {
                                assert(field_names@[j as int]@ == fields[j as int]);
                            }
                            let fv: &JsonValue = match elem.index(field) {
                                Some(x) => x,
                                None => &null_value,
                            };
                            let cell: (String, u8) = match &value_transformer {
                                Some(t) => t.apply(field, fv),
                                None => (na_fallback(fv), 0u8),
                            };
                            proof {
                                assert((cell.0@, cell.1) == spec_cell(
                                    value_transformer,
                                    fields[j as int],
                                    json_lookup(*elem, fields[j as int]),
                                ));
                            }
                            if cell.1 == 2 {
                                row.push_right(cell.0.as_str());
                            } else if cell.1 == 1 {
                                row.push_center(cell.0.as_str());
                            } else {
                                proof {
                                    assert(cell.1 == 0);
                                }
                                row.push_left(cell.0.as_str());
                            }
                            proof {
                                let sr = spec_row(value_transformer, fields, *elem);
                                assert(sr.take(j + 1) =~= sr.take(j as int).push(sr[j as int]));
                            }
                            j = j + 1;
                        }
                        proof {
                            let sr = spec_row(value_transformer, fields, *elem);
                            assert(sr.take(nfields as int) =~= sr);
                        }
                        table.add_row(row);
                        proof {
                            let rows = spec_rows(value_transformer, fields, value.spec_value());
                            assert(rows[k as int] == spec_row(value_transformer, fields, *elem));
                            assert(rows.take(k + 1) =~= rows.take(k as int).push(rows[k as int]));
                            assert(table_model(table) =~= seq![header_row(cols)] + rows.take(
                                k + 1,
                            ));
                        }
                        k = k + 1;
                    }
                    proof {
                        let rows = spec_rows(value_transformer, fields, value.spec_value());
                        assert(rows.take(nrows as int) =~= rows);
                        assert(table_model(table) =~= spec_table(
                            cols,
                            fields,
                            value.spec_value(),
                            value_transformer,
                        ));
                    }
                },
                _ => {
                    proof {
                        assert(spec_rows(value_transformer, fields, value.spec_value())
                            =~= Seq::<Seq<(Seq<char>, u8)>>::empty());
                        assert(table_model(table) =~= spec_table(
                            cols,
                            fields,
                            value.spec_value(),
                            value_transformer,
                        ));
                    }
                },
            }
            table.render()
        },
    }
}

} // verus!
