use vstd::prelude::*;

use crate::builder::SqlBuilder;
use crate::helpers::{
    count_char, into_returnings, lemma_params_dollar_count, spec_comma_names,
    spec_merge_returnings, spec_params, spec_returnings, sql_comma_names, sql_comma_params,
    sql_returnings,
};
use crate::value::{Field, FieldView, Val, ValView};

verus! {

/// Starts an INSERT statement builder for `table`. The table name is taken
/// raw and quoted at render time.
pub fn insert(table: &str) -> (r: SqlInsertBuilder)
    ensures
        r@ == (InsertView { table: table@, data: None, returnings: None }),
{
    SqlInsertBuilder { table: String::from_str(table), data: None, returnings: None }
}

/// Builder for an INSERT statement: a required table name, an optional list
/// of field/value pairs (absent means "no column/value clause", a valid state
/// for rows filled entirely by defaults), and an optional list of returning
/// columns. Configuration calls consume and return the builder; rendering and
/// value extraction are read-only.
#[derive(Clone)]
pub struct SqlInsertBuilder {
    table: String,
    data: Option<Vec<Field>>,
    returnings: Option<Vec<String>>,
}

/// The mathematical state of a [`SqlInsertBuilder`].
pub struct InsertView {
    pub table: Seq<char>,
    pub data: Option<Seq<FieldView>>,
    pub returnings: Option<Seq<Seq<char>>>,
}

impl View for SqlInsertBuilder {
    type V = InsertView;

    closed spec fn view(&self) -> InsertView {
        InsertView {
            table: self.table@,
            data: self.data.deep_view(),
            returnings: self.returnings.deep_view(),
        }
    }
}

/// The statement text for builder state `b`: the keyword clause with the
/// quoted table name, then (only when data fields are present) the
/// parenthesized quoted column names and the `VALUES` clause with one
/// positional placeholder per field, then (only when a returning list is
/// present) the `RETURNING` clause — each present clause followed by one
/// space.
pub open spec fn spec_insert_sql(b: InsertView) -> Seq<char> {
    "INSERT INTO \""@ + b.table + "\" "@ + (match b.data {
        Some(fields) => "("@ + spec_comma_names(fields) + ") VALUES ("@ + spec_params(fields.len())
            + ") "@,
        None => Seq::<char>::empty(),
    }) + (match b.returnings {
        Some(names) => "RETURNING "@ + spec_returnings(names) + " "@,
        None => Seq::<char>::empty(),
    })
}

/// The ordered bound values for builder state `b`: the field values in field
/// order, or nothing when no data fields were configured.
pub open spec fn spec_insert_vals(b: InsertView) -> Seq<ValView> {
    match b.data {
        Some(fields) => fields.map_values(|f: FieldView| f.value),
        None => Seq::empty(),
    }
}

impl SqlInsertBuilder {
    /// Sets the data fields, replacing any prior data entirely.
    pub fn data(self, fields: Vec<Field>) -> (r: Self)
        ensures
            r@ == (InsertView {
                table: self@.table,
                data: Some(fields.deep_view()),
                returnings: self@.returnings,
            }),
    {
        SqlInsertBuilder { table: self.table, data: Some(fields), returnings: self.returnings }
    }

    /// Append-merges returning columns: the names are added after any
    /// already requested, duplicates and all. A first call, even with an
    /// empty slice, makes the returning list present.
    pub fn returning(self, names: &[&str]) -> (r: Self)
        ensures
            r@ == (InsertView {
                table: self@.table,
                data: self@.data,
                returnings: spec_merge_returnings(self@.returnings, names.deep_view()),
            }),
    {
        let SqlInsertBuilder { table, data, returnings } = self;
        let returnings = into_returnings(returnings, names);
        SqlInsertBuilder { table, data, returnings }
    }
}

impl SqlBuilder for SqlInsertBuilder {
    open spec fn sql_model(&self) -> Seq<char> {
        spec_insert_sql(self@)
    }

    open spec fn vals_model(&self) -> Seq<ValView> {
        spec_insert_vals(self@)
    }

    fn sql(&self) -> (r: String) {
        let mut sql = String::from_str("INSERT INTO \"");
        sql.append(self.table.as_str());
        sql.append("\" ");
        match &self.data {
            Some(fields) => {
                sql.append("(");
                let names = sql_comma_names(fields);
                sql.append(names.as_str());
                sql.append(") VALUES (");
                let params = sql_comma_params(fields);
                sql.append(params.as_str());
                sql.append(") ");
            },
            None => {},
        }
        match &self.returnings {
            Some(cols) => {
                sql.append("RETURNING ");
                let joined = sql_returnings(cols);
                sql.append(joined.as_str());
                sql.append(" ");
            },
            None => {},
        }
        proof {
            assert(sql@ =~= spec_insert_sql(self@));
        }
        sql
    }

    fn vals(&self) -> (r: Vec<Val>) {
        let mut out: Vec<Val> = Vec::new();
        match &self.data {
            Some(fields) => {
                let ghost values = fields.deep_view().map_values(|f: FieldView| f.value);
                let mut i: usize = 0;
                while i < fields.len()
                    invariant
                        i <= fields.len(),
                        values == fields.deep_view().map_values(|f: FieldView| f.value),
                        values.len() == fields.len(),
                        out.deep_view() == values.take(i as int),
                    decreases fields.len() - i,
                {
                    let ghost pre = out.deep_view();
                    out.push(fields[i].1.clone());
                    proof {
                        assert(out.deep_view() =~= pre.push(values[i as int]));
                        assert(pre.push(values[i as int]) =~= values.take(i as int + 1));
                    }
                    i += 1;
                }
                proof {
                    assert(values.take(values.len() as int) =~= values);
                }
            },
            None => {},
        }
        out
    }
}

/// The extracted values line up with the emitted placeholders: when data
/// fields are configured, the statement text embeds the placeholder list
/// `$1, ..., $n` (see [`spec_insert_sql`]) where `n` is exactly the number of
/// extracted values, that list carries exactly `n` placeholder markers, and
/// the i-th extracted value is the i-th field's value — the one the
/// placeholder `$(i+1)` stands for. Without data fields, no values are
/// extracted and no `VALUES` clause is rendered.
pub proof fn lemma_values_match_placeholders(b: InsertView)
    ensures
        match b.data {
            Some(fields) => {
                &&& spec_insert_vals(b).len() == fields.len()
                &&& count_char(spec_params(spec_insert_vals(b).len()), '$') == spec_insert_vals(
                    b,
                ).len()
                &&& forall|i: int|
                    0 <= i < fields.len() ==> spec_insert_vals(b)[i] == fields[i].value
            },
            None => spec_insert_vals(b).len() == 0,
        },
{
    if b.data is Some {
        lemma_params_dollar_count(spec_insert_vals(b).len());
    }
}

/// Repeated returning calls accumulate by appending: merging `first` and
/// then `second` onto a returning list yields the original entries (none,
/// when the list was absent) followed by `first` and then `second`, in
/// order, with duplicates kept.
pub proof fn lemma_merge_returnings_appends(
    returnings: Option<Seq<Seq<char>>>,
    first: Seq<Seq<char>>,
    second: Seq<Seq<char>>,
)
    ensures
        spec_merge_returnings(spec_merge_returnings(returnings, first), second) == Some(
            (match returnings {
                Some(list) => list,
                None => Seq::empty(),
            }) + first + second,
        ),
{
}

/// Configured data fields are visible in the rendered text: a builder whose
/// data is present renders differently from one whose data is absent,
/// whatever the fields — even an empty-but-present field list emits its
/// (empty) column and `VALUES` clauses.
pub proof fn lemma_data_clause_visible(with_data: InsertView, without_data: InsertView)
    requires
        with_data.table == without_data.table,
        with_data.returnings == without_data.returnings,
        with_data.data is Some,
        without_data.data is None,
    ensures
        spec_insert_sql(with_data) != spec_insert_sql(without_data),
{
    reveal_strlit("(");
    reveal_strlit(") VALUES (");
    reveal_strlit(") ");
    let fields = with_data.data->Some_0;
    let mid = "("@ + spec_comma_names(fields) + ") VALUES ("@ + spec_params(fields.len())
        + ") "@;
    assert(mid.len() >= 13);
    assert(spec_insert_sql(with_data).len() == spec_insert_sql(without_data).len() + mid.len());
}

/// Rendering and extraction are pure: for one builder state, any two
/// renderings agree and any two extractions agree, so the operations may be
/// interleaved and repeated freely.
pub proof fn lemma_render_extract_deterministic(
    b: InsertView,
    sql_a: Seq<char>,
    sql_b: Seq<char>,
    vals_a: Seq<ValView>,
    vals_b: Seq<ValView>,
)
    requires
        sql_a == spec_insert_sql(b),
        sql_b == spec_insert_sql(b),
        vals_a == spec_insert_vals(b),
        vals_b == spec_insert_vals(b),
    ensures
        sql_a == sql_b,
        vals_a == vals_b,
{
}

} // verus!
