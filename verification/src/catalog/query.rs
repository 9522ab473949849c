//! Assembly of the listing/search SQL over the catalog projection: the `WHERE` clause for a
//! query and its filter conditions, the order, the counting and selecting statements, and the
//! FTS5 match expression for free text. Values travel as bind parameters, never inside the SQL.

use vstd::prelude::*;

use crate::catalog::search::{FilterCond, SearchQuery, SearchResult, Sort};
use crate::shared::Pagination;
use crate::text::{
    char_is_alphanumeric, char_is_whitespace, chars_of, is_alphanumeric, is_whitespace, push_char,
};

verus! {

/// A bind parameter of a statement. A real number is carried as its IEEE-754 bit pattern.
#[derive(Debug)]
pub enum SqlParam {
    Text(String),
    Int(i64),
    RealBits(u64),
}

/// A bind parameter as a plain value.
pub enum ParamView {
    Text(Seq<char>),
    Int(i64),
    RealBits(u64),
}

impl SqlParam {
    pub open spec fn view(&self) -> ParamView {
        match self {
            SqlParam::Text(s) => ParamView::Text(s@),
            SqlParam::Int(i) => ParamView::Int(*i),
            SqlParam::RealBits(b) => ParamView::RealBits(*b),
        }
    }
}

/// SQL text with its bind parameters, in placeholder order.
#[derive(Debug)]
pub struct SqlFragment {
    pub sql: String,
    pub params: Vec<SqlParam>,
}

/// SQL text and parameters as plain values.
pub struct SqlView {
    pub sql: Seq<char>,
    pub params: Seq<ParamView>,
}

/// Concatenation of two statement pieces.
pub open spec fn cat(a: SqlView, b: SqlView) -> SqlView {
    SqlView { sql: a.sql + b.sql, params: a.params + b.params }
}

/// A piece of SQL text without parameters.
pub open spec fn text(s: Seq<char>) -> SqlView {
    SqlView { sql: s, params: Seq::empty() }
}

/// One placeholder bound to `p`.
pub open spec fn bind(p: ParamView) -> SqlView {
    SqlView { sql: "?"@, params: seq![p] }
}

/// The empty piece.
pub open spec fn nothing() -> SqlView {
    SqlView { sql: Seq::empty(), params: Seq::empty() }
}

/// Placeholders separated by `, ` bound to the given texts, in order.
pub open spec fn bind_list(values: Seq<Seq<char>>) -> SqlView
    decreases values.len(),
{
    if values.len() == 0 {
        nothing()
    } else if values.len() == 1 {
        bind(ParamView::Text(values[0]))
    } else {
        cat(cat(bind_list(values.drop_last()), text(", "@)), bind(ParamView::Text(values.last())))
    }
}

/// The texts of a list of strings.
pub open spec fn texts(v: Seq<String>) -> Seq<Seq<char>> {
    v.map_values(|s: String| s@)
}

/// An optional comparison ` <prefix>?` bound to an integer.
pub open spec fn opt_int(prefix: Seq<char>, v: Option<i64>) -> SqlView {
    match v {
        Some(x) => cat(text(prefix), bind(ParamView::Int(x))),
        None => nothing(),
    }
}

/// An optional comparison ` <prefix>?` bound to a real number.
pub open spec fn opt_real(prefix: Seq<char>, v: Option<u64>) -> SqlView {
    match v {
        Some(x) => cat(text(prefix), bind(ParamView::RealBits(x))),
        None => nothing(),
    }
}

/// Opening of a sub-select on the attribute index for one attribute.
pub open spec fn attr_subselect(attribute_id: Seq<char>) -> SqlView {
    cat(
        text(" AND pp.id IN (SELECT product_id FROM product_attr_index WHERE attribute_id = "@),
        bind(ParamView::Text(attribute_id)),
    )
}

/// The condition that one filter adds to the `WHERE` clause. A checkbox or enum filter without
/// values adds nothing.
pub open spec fn filter_sql(f: FilterCond) -> SqlView {
    match f {
        FilterCond::RangePrice { min_minor, max_minor } => cat(
            opt_int(" AND pp.price_minor >= "@, min_minor),
            opt_int(" AND pp.price_minor <= "@, max_minor),
        ),
        FilterCond::CheckboxOr { attribute_id, values } => if values@.len() > 0 {
            cat(
                cat(
                    cat(attr_subselect(attribute_id@), text(" AND val_text IN ("@)),
                    bind_list(texts(values@)),
                ),
                text("))"@),
            )
        } else {
            nothing()
        },
        FilterCond::EnumAnd { attribute_id, values } => if values@.len() > 0 {
            cat(
                cat(
                    cat(
                        cat(attr_subselect(attribute_id@), text(" AND val_text IN ("@)),
                        bind_list(texts(values@)),
                    ),
                    cat(
                        text(") GROUP BY product_id HAVING COUNT(DISTINCT val_text) = "@),
                        bind(ParamView::Int(values@.len() as i64)),
                    ),
                ),
                text(")"@),
            )
        } else {
            nothing()
        },
        FilterCond::Number { attribute_id, value_bits } => cat(
            cat(
                attr_subselect(attribute_id@),
                cat(text(" AND val_num = "@), bind(ParamView::RealBits(value_bits))),
            ),
            text(")"@),
        ),
        FilterCond::RangeGeneric { attribute_id, min_bits, max_bits } => cat(
            cat(
                cat(attr_subselect(attribute_id@), opt_real(" AND val_num >= "@, min_bits)),
                opt_real(" AND val_num <= "@, max_bits),
            ),
            text(")"@),
        ),
    }
}

/// The conditions of the first `i` filters, in order.
pub open spec fn filters_sql(filters: Seq<FilterCond>, i: int) -> SqlView
    decreases i,
{
    if i <= 0 {
        nothing()
    } else {
        cat(filters_sql(filters, i - 1), filter_sql(filters[i - 1]))
    }
}

/// The `WHERE` clause of a listing: published products only, restricted to the full-text hits
/// when there are any, to the category when one is given, and by every filter.
pub open spec fn where_sql(
    category_id: Option<Seq<char>>,
    filters: Seq<FilterCond>,
    fts_ids: Option<Seq<Seq<char>>>,
) -> SqlView {
    cat(
        cat(
            cat(
                text(" WHERE pp.status = 'published'"@),
                match fts_ids {
                    Some(ids) => cat(cat(text(" AND pp.id IN ("@), bind_list(ids)), text(")"@)),
                    None => nothing(),
                },
            ),
            match category_id {
                Some(c) => cat(
                    cat(
                        text(
                            " AND pp.id IN (SELECT DISTINCT product_id FROM product_attr_index WHERE category_id = "@,
                        ),
                        bind(ParamView::Text(c)),
                    ),
                    text(")"@),
                ),
                None => nothing(),
            },
        ),
        filters_sql(filters, filters.len() as int),
    )
}

/// Whether a product priced `price` passes a run of price comparisons, read as SQL would:
/// `sql` is a sequence of ` AND pp.price_minor >= ?` and ` AND pp.price_minor <= ?`, each
/// placeholder taking the next integer parameter; any other text admits nothing.
pub open spec fn price_admits(sql: Seq<char>, params: Seq<ParamView>, price: int) -> bool
    decreases sql.len(),
{
    let ge = " AND pp.price_minor >= ?"@;
    let le = " AND pp.price_minor <= ?"@;
    if sql.len() == 0 {
        params.len() == 0
    } else if params.len() == 0 {
        false
    } else if sql.len() >= 24 && sql.take(24) == ge {
        match params[0] {
            ParamView::Int(a) => a <= price && price_admits(sql.skip(24), params.skip(1), price),
            _ => false,
        }
    } else if sql.len() >= 24 && sql.take(24) == le {
        match params[0] {
            ParamView::Int(b) => price <= b && price_admits(sql.skip(24), params.skip(1), price),
            _ => false,
        }
    } else {
        false
    }
}

/// A price filter admits exactly the products priced within its bounds: at least `min_minor`
/// when there is one, at most `max_minor` when there is one.
pub proof fn lemma_price_filter_admits_range(min_minor: Option<i64>, max_minor: Option<i64>, price: int)
    ensures
        ({
            let v = filter_sql(FilterCond::RangePrice { min_minor, max_minor });
            price_admits(v.sql, v.params, price) <==> (
                (min_minor matches Some(a) ==> a <= price)
                && (max_minor matches Some(b) ==> price <= b))
        }),
{
    let ge = " AND pp.price_minor >= ?"@;
    let le = " AND pp.price_minor <= ?"@;
    reveal_strlit(" AND pp.price_minor >= ?");
    reveal_strlit(" AND pp.price_minor <= ?");
    reveal_strlit("?");
    reveal_strlit(" AND pp.price_minor >= ");
    reveal_strlit(" AND pp.price_minor <= ");
    assert(ge.len() == 24 && le.len() == 24);
    assert(ge[20] != le[20]);
    let v = filter_sql(FilterCond::RangePrice { min_minor, max_minor });
    let e = Seq::<char>::empty();
    let ep = Seq::<ParamView>::empty();
    assert(price_admits(e, ep, price));
    assert(" AND pp.price_minor >= "@ + "?"@ =~= ge);
    assert(" AND pp.price_minor <= "@ + "?"@ =~= le);
    // the upper-bound comparison alone
    assert(le.take(24) =~= le);
    assert(le.skip(24) =~= e);
    assert(le.take(24) != ge) by {
        assert(le.take(24)[20] != ge[20]);
    }
    match (min_minor, max_minor) {
        (Some(a), Some(b)) => {
            assert(v.sql =~= ge + le);
            assert(v.params =~= seq![ParamView::Int(a), ParamView::Int(b)]);
            assert((ge + le).take(24) =~= ge);
            assert((ge + le).skip(24) =~= le);
            assert(v.params.skip(1) =~= seq![ParamView::Int(b)]);
            assert(seq![ParamView::Int(b)].skip(1) =~= ep);
            assert(price_admits(le, seq![ParamView::Int(b)], price) == (price <= b));
            assert(price_admits(v.sql, v.params, price) == (a <= price && price_admits(le, seq![ParamView::Int(b)], price)));
        },
        (Some(a), None) => {
            assert(v.sql =~= ge);
            assert(v.params =~= seq![ParamView::Int(a)]);
            assert(ge.take(24) =~= ge);
            assert(ge.skip(24) =~= e);
            assert(v.params.skip(1) =~= ep);
            assert(price_admits(v.sql, v.params, price) == (a <= price));
        },
        (None, Some(b)) => {
            assert(v.sql =~= le);
            assert(v.params =~= seq![ParamView::Int(b)]);
            assert(v.params.skip(1) =~= ep);
            assert(price_admits(v.sql, v.params, price) == (price <= b));
        },
        (None, None) => {
            assert(v.sql =~= e);
            assert(v.params =~= ep);
        },
    }
}

impl SqlFragment {
    /// The fragment as plain values.
    pub open spec fn view(&self) -> SqlView {
        SqlView { sql: self.sql@, params: self.params@.map_values(|p: SqlParam| p.view()) }
    }

    /// An empty fragment.
    pub fn new() -> (r: SqlFragment)
        ensures
            r.view() == nothing(),
    {
        let r = SqlFragment { sql: String::new(), params: Vec::new() };
        assert(r.view().params =~= Seq::<ParamView>::empty());
        r
    }

    /// Appends SQL text.
    pub fn push_sql(&mut self, s: &str)
        ensures
            final(self).view() == cat(old(self).view(), text(s@)),
    {
        self.sql.append(s);
        assert(self.view().params =~= old(self).view().params + Seq::<ParamView>::empty());
    }

    /// Appends a placeholder bound to `p`.
    pub fn push_bind(&mut self, p: SqlParam)
        ensures
            final(self).view() == cat(old(self).view(), bind(p.view())),
    {
        let ghost pv = p.view();
        self.sql.append("?");
        self.params.push(p);
        assert(self.view().params =~= old(self).view().params + seq![pv]);
    }

    fn push_bind_list(&mut self, values: &[String])
        ensures
            final(self).view() == cat(old(self).view(), bind_list(texts(values@))),
    {
        let mut i: usize = 0;
        assert(texts(values@.take(0)) =~= Seq::<Seq<char>>::empty());
        assert(cat(old(self).view(), nothing()) =~= old(self).view());
        while i < values.len()
            invariant
                i <= values@.len(),
                self.view() == cat(old(self).view(), bind_list(texts(values@.take(i as int)))),
            decreases values@.len() - i,
        {
            let ghost before = self.view();
            let ghost prefix = texts(values@.take(i as int));
            let ghost next = texts(values@.take(i + 1));
            assert(next.drop_last() =~= prefix);
            assert(next.last() == values@[i as int]@);
            assert(next.len() == i + 1);
            if i > 0 {
                self.push_sql(", ");
            }
            self.push_bind(SqlParam::Text(values[i].clone()));
            proof {
                if i == 0 {
                    assert(self.view() =~= cat(old(self).view(), bind_list(next)));
                } else {
                    assert(self.view().sql =~= cat(old(self).view(), bind_list(next)).sql);
                    assert(self.view().params =~= cat(old(self).view(), bind_list(next)).params);
                }
            }
            i += 1;
        }
        assert(values@.take(values@.len() as int) =~= values@);
    }
}


proof fn lemma_cat_assoc(a: SqlView, b: SqlView, c: SqlView)
    ensures
        cat(cat(a, b), c) == cat(a, cat(b, c)),
{
    assert(cat(cat(a, b), c).sql =~= cat(a, cat(b, c)).sql);
    assert(cat(cat(a, b), c).params =~= cat(a, cat(b, c)).params);
}

proof fn lemma_cat_nothing(a: SqlView)
    ensures
        cat(a, nothing()) == a,
        cat(nothing(), a) == a,
{
    assert(cat(a, nothing()).sql =~= a.sql);
    assert(cat(a, nothing()).params =~= a.params);
    assert(cat(nothing(), a).sql =~= a.sql);
    assert(cat(nothing(), a).params =~= a.params);
}

impl SqlFragment {
    fn push_opt_int(&mut self, prefix: &str, v: Option<i64>)
        ensures
            final(self).view() == cat(old(self).view(), opt_int(prefix@, v)),
    {
        match v {
            Some(x) => {
                self.push_sql(prefix);
                self.push_bind(SqlParam::Int(x));
                proof {
                    lemma_cat_assoc(old(self).view(), text(prefix@), bind(ParamView::Int(x)));
                }
            },
            None => {
                proof {
                    lemma_cat_nothing(old(self).view());
                }
            },
        }
    }

    fn push_opt_real(&mut self, prefix: &str, v: Option<u64>)
        ensures
            final(self).view() == cat(old(self).view(), opt_real(prefix@, v)),
    {
        match v {
            Some(x) => {
                self.push_sql(prefix);
                self.push_bind(SqlParam::RealBits(x));
                proof {
                    lemma_cat_assoc(old(self).view(), text(prefix@), bind(ParamView::RealBits(x)));
                }
            },
            None => {
                proof {
                    lemma_cat_nothing(old(self).view());
                }
            },
        }
    }

    fn push_attr_subselect(&mut self, attribute_id: &String)
        ensures
            final(self).view() == cat(old(self).view(), attr_subselect(attribute_id@)),
    {
        self.push_sql(
            " AND pp.id IN (SELECT product_id FROM product_attr_index WHERE attribute_id = ",
        );
        self.push_bind(SqlParam::Text(attribute_id.clone()));
        proof {
            lemma_cat_assoc(
                old(self).view(),
                text(" AND pp.id IN (SELECT product_id FROM product_attr_index WHERE attribute_id = "@),
                bind(ParamView::Text(attribute_id@)),
            );
        }
    }

    /// Appends the condition of one filter (see `filter_sql`).
    pub fn push_filter_cond(&mut self, f: &FilterCond)
        ensures
            final(self).view() == cat(old(self).view(), filter_sql(*f)),
    {
        let ghost o = old(self).view();
        match f {
            FilterCond::RangePrice { min_minor, max_minor } => {
                self.push_opt_int(" AND pp.price_minor >= ", *min_minor);
                self.push_opt_int(" AND pp.price_minor <= ", *max_minor);
                proof {
                    lemma_cat_assoc(
                        o,
                        opt_int(" AND pp.price_minor >= "@, *min_minor),
                        opt_int(" AND pp.price_minor <= "@, *max_minor),
                    );
                }
            },
            FilterCond::CheckboxOr { attribute_id, values } => {
                if values.len() > 0 {
                    self.push_attr_subselect(attribute_id);
                    self.push_sql(" AND val_text IN (");
                    self.push_bind_list(values.as_slice());
                    self.push_sql("))");
                    proof {
                        let a = attr_subselect(attribute_id@);
                        let b = text(" AND val_text IN ("@);
                        let c = bind_list(texts(values@));
                        let d = text("))"@);
                        lemma_cat_assoc(o, a, b);
                        lemma_cat_assoc(o, cat(a, b), c);
                        lemma_cat_assoc(o, cat(cat(a, b), c), d);
                    }
                } else {
                    proof {
                        lemma_cat_nothing(o);
                    }
                }
            },
            FilterCond::EnumAnd { attribute_id, values } => {
                if values.len() > 0 {
                    let n = values.len();
                    self.push_attr_subselect(attribute_id);
                    self.push_sql(" AND val_text IN (");
                    self.push_bind_list(values.as_slice());
                    self.push_sql(") GROUP BY product_id HAVING COUNT(DISTINCT val_text) = ");
                    self.push_bind(SqlParam::Int(#[verifier::truncate] (n as i64)));
                    self.push_sql(")");
                    proof {
                        let a = attr_subselect(attribute_id@);
                        let b = text(" AND val_text IN ("@);
                        let c = bind_list(texts(values@));
                        let g = text(") GROUP BY product_id HAVING COUNT(DISTINCT val_text) = "@);
                        let h = bind(ParamView::Int(values@.len() as i64));
                        let d = text(")"@);
                        lemma_cat_assoc(o, a, b);
                        lemma_cat_assoc(o, cat(a, b), c);
                        lemma_cat_assoc(o, cat(cat(a, b), c), g);
                        lemma_cat_assoc(cat(o, cat(cat(a, b), c)), g, h);
                        lemma_cat_assoc(o, cat(cat(a, b), c), cat(g, h));
                        lemma_cat_assoc(o, cat(cat(cat(a, b), c), cat(g, h)), d);
                    }
                } else {
                    proof {
                        lemma_cat_nothing(o);
                    }
                }
            },
            FilterCond::Number { attribute_id, value_bits } => {
                self.push_attr_subselect(attribute_id);
                self.push_sql(" AND val_num = ");
                self.push_bind(SqlParam::RealBits(*value_bits));
                self.push_sql(")");
                proof {
                    let a = attr_subselect(attribute_id@);
                    let b = text(" AND val_num = "@);
                    let c = bind(ParamView::RealBits(*value_bits));
                    let d = text(")"@);
                    lemma_cat_assoc(cat(o, a), b, c);
                    lemma_cat_assoc(o, a, cat(b, c));
                    lemma_cat_assoc(o, cat(a, cat(b, c)), d);
                }
            },
            FilterCond::RangeGeneric { attribute_id, min_bits, max_bits } => {
                self.push_attr_subselect(attribute_id);
                self.push_opt_real(" AND val_num >= ", *min_bits);
                self.push_opt_real(" AND val_num <= ", *max_bits);
                self.push_sql(")");
                proof {
                    let a = attr_subselect(attribute_id@);
                    let b = opt_real(" AND val_num >= "@, *min_bits);
                    let c = opt_real(" AND val_num <= "@, *max_bits);
                    let d = text(")"@);
                    lemma_cat_assoc(o, a, b);
                    lemma_cat_assoc(o, cat(a, b), c);
                    lemma_cat_assoc(o, cat(cat(a, b), c), d);
                }
            },
        }
    }
}


} // verus!

verus! {

impl SqlFragment {
    /// Appends the `WHERE` clause of a listing (see `where_sql`).
    pub fn push_where(&mut self, query: &SearchQuery, fts_ids: &Option<Vec<String>>)
        ensures
            final(self).view() == cat(
                old(self).view(),
                where_sql(
                    opt_text(query.category_id),
                    query.filters@,
                    fts_view(*fts_ids),
                ),
            ),
    {
        let ghost o = old(self).view();
        self.push_sql(" WHERE pp.status = 'published'");
        let ghost a = text(" WHERE pp.status = 'published'"@);
        let ghost b = match fts_view(*fts_ids) {
            Some(ids) => cat(cat(text(" AND pp.id IN ("@), bind_list(ids)), text(")"@)),
            None => nothing(),
        };
        match fts_ids {
            Some(ids) => {
                self.push_sql(" AND pp.id IN (");
                self.push_bind_list(ids.as_slice());
                self.push_sql(")");
                proof {
                    let x = text(" AND pp.id IN ("@);
                    let y = bind_list(texts(ids@));
                    let z = text(")"@);
                    lemma_cat_assoc(cat(o, a), x, y);
                    lemma_cat_assoc(cat(o, a), cat(x, y), z);
                }
            },
            None => {
                proof {
                    lemma_cat_nothing(cat(o, a));
                }
            },
        }
        assert(self.view() == cat(cat(o, a), b));
        let ghost c = match opt_text(query.category_id) {
            Some(cid) => cat(
                cat(
                    text(
                        " AND pp.id IN (SELECT DISTINCT product_id FROM product_attr_index WHERE category_id = "@,
                    ),
                    bind(ParamView::Text(cid)),
                ),
                text(")"@),
            ),
            None => nothing(),
        };
        match &query.category_id {
            Some(cat_id) => {
                self.push_sql(
                    " AND pp.id IN (SELECT DISTINCT product_id FROM product_attr_index WHERE category_id = ",
                );
                self.push_bind(SqlParam::Text(cat_id.clone()));
                self.push_sql(")");
                proof {
                    let x = text(
                        " AND pp.id IN (SELECT DISTINCT product_id FROM product_attr_index WHERE category_id = "@,
                    );
                    let y = bind(ParamView::Text(cat_id@));
                    let z = text(")"@);
                    lemma_cat_assoc(cat(cat(o, a), b), x, y);
                    lemma_cat_assoc(cat(cat(o, a), b), cat(x, y), z);
                }
            },
            None => {
                proof {
                    lemma_cat_nothing(cat(cat(o, a), b));
                }
            },
        }
        assert(self.view() == cat(cat(cat(o, a), b), c));
        let ghost mid = self.view();
        let mut i: usize = 0;
        proof {
            lemma_cat_nothing(mid);
        }
        while i < query.filters.len()
            invariant
                i <= query.filters@.len(),
                self.view() == cat(mid, filters_sql(query.filters@, i as int)),
            decreases query.filters@.len() - i,
        {
            self.push_filter_cond(&query.filters[i]);
            proof {
                lemma_cat_assoc(
                    mid,
                    filters_sql(query.filters@, i as int),
                    filter_sql(query.filters@[i as int]),
                );
            }
            i += 1;
        }
        proof {
            lemma_cat_assoc(o, a, b);
            lemma_cat_assoc(o, cat(a, b), c);
            lemma_cat_assoc(o, cat(cat(a, b), c), filters_sql(query.filters@, query.filters@.len() as int));
            lemma_cat_assoc(cat(o, a), b, c);
            lemma_cat_assoc(cat(o, a), cat(b, c), filters_sql(query.filters@, query.filters@.len() as int));
            lemma_cat_assoc(o, a, cat(b, c));
        }
    }
}

/// The text of an optional string.
pub open spec fn opt_text(o: Option<String>) -> Option<Seq<char>> {
    match o {
        Some(s) => Some(s@),
        None => None,
    }
}

/// The `ORDER BY` expression of a sort order (ties broken by id).
pub open spec fn order_text(sort: Sort) -> Seq<char> {
    match sort {
        Sort::PriceAsc => "pp.price_minor ASC, pp.id ASC"@,
        Sort::PriceDesc => "pp.price_minor DESC, pp.id ASC"@,
        Sort::Newest => "pp.created_at DESC, pp.id ASC"@,
        Sort::Relevance => "pp.created_at DESC, pp.id ASC"@,
    }
}

/// The `ORDER BY` expression of a sort order. Relevance orders like newest first.
pub fn order_clause(sort: Sort) -> (r: &'static str)
    ensures
        r@ == order_text(sort),
{
    match sort {
        Sort::PriceAsc => "pp.price_minor ASC, pp.id ASC",
        Sort::PriceDesc => "pp.price_minor DESC, pp.id ASC",
        Sort::Newest => "pp.created_at DESC, pp.id ASC",
        Sort::Relevance => "pp.created_at DESC, pp.id ASC",
    }
}

/// Largest page a search serves.
pub const MAX_LIMIT: u32 = 100;

/// The limit a search applies: the one asked for, brought into `1..=MAX_LIMIT`.
pub open spec fn effective_limit(asked: u32) -> int {
    if asked < 1 {
        1
    } else if asked > MAX_LIMIT {
        MAX_LIMIT as int
    } else {
        asked as int
    }
}

/// The window a search reads, as `(limit, offset)`: the limit asked for brought into
/// `1..=MAX_LIMIT`, and the offset as asked.
pub fn search_window(page: Pagination) -> (r: (i64, i64))
    ensures
        r.0 == effective_limit(page.limit),
        r.1 == page.offset,
        1 <= r.0 <= MAX_LIMIT,
{
    let limit: u32 = if page.limit < 1 {
        1
    } else if page.limit > MAX_LIMIT {
        MAX_LIMIT
    } else {
        page.limit
    };
    (limit as i64, page.offset as i64)
}

/// Whether a search ends with an empty result before reading any card: the free text matched
/// no product (`fts_hits` is its number of hits, `None` when there is no text to match), or
/// the count of matching products (`total`, `None` before it is known) is zero.
pub open spec fn search_ends_empty(fts_hits: Option<usize>, total: Option<i64>) -> bool {
    fts_hits == Some(0usize) || total == Some(0i64)
}

/// The early answer of a search: the empty result (no items, total 0, no facets) where
/// `search_ends_empty`, otherwise `None` and the search goes on.
pub fn early_search_result(fts_hits: Option<usize>, total: Option<i64>) -> (r: Option<SearchResult>)
    ensures
        r is Some <==> search_ends_empty(fts_hits, total),
        r matches Some(res) ==> res.items@.len() == 0 && res.total == 0 && res.facets@.len() == 0,
{
    let no_hits = match fts_hits {
        Some(n) => n == 0,
        None => false,
    };
    let none_counted = match total {
        Some(t) => t == 0,
        None => false,
    };
    if no_hits || none_counted {
        Some(SearchResult { items: Vec::new(), total: 0, facets: Vec::new() })
    } else {
        None
    }
}

/// The ids of the full-text hits, as plain values.
pub open spec fn fts_view(fts_ids: Option<Vec<String>>) -> Option<Seq<Seq<char>>> {
    match fts_ids {
        Some(ids) => Some(texts(ids@)),
        None => None,
    }
}

/// The statement counting the products of a listing.
pub fn count_statement(query: &SearchQuery, fts_ids: &Option<Vec<String>>) -> (r: SqlFragment)
    ensures
        r.view() == cat(
            text("SELECT COUNT(*) FROM product_projection pp"@),
            where_sql(opt_text(query.category_id), query.filters@, fts_view(*fts_ids)),
        ),
{
    let mut f = SqlFragment::new();
    f.push_sql("SELECT COUNT(*) FROM product_projection pp");
    proof {
        lemma_cat_nothing(text("SELECT COUNT(*) FROM product_projection pp"@));
    }
    f.push_where(query, fts_ids);
    f
}

/// The statement selecting one page of product cards of a listing, in the query's order.
pub fn select_statement(
    query: &SearchQuery,
    fts_ids: &Option<Vec<String>>,
    limit: i64,
    offset: i64,
) -> (r: SqlFragment)
    ensures
        r.view() == cat(
            cat(
                text(
                    "SELECT pp.id, pp.title, pp.slug, pp.price_minor, pp.currency, pp.thumb FROM product_projection pp"@,
                ),
                where_sql(opt_text(query.category_id), query.filters@, fts_view(*fts_ids)),
            ),
            cat(
                cat(
                    cat(text(" ORDER BY "@ + order_text(query.sort) + " LIMIT "@), bind(ParamView::Int(limit))),
                    text(" OFFSET "@),
                ),
                bind(ParamView::Int(offset)),
            ),
        ),
{
    let mut f = SqlFragment::new();
    let head = "SELECT pp.id, pp.title, pp.slug, pp.price_minor, pp.currency, pp.thumb FROM product_projection pp";
    f.push_sql(head);
    proof {
        lemma_cat_nothing(text(head@));
    }
    f.push_where(query, fts_ids);
    let ghost w = f.view();
    f.push_sql(" ORDER BY ");
    f.push_sql(order_clause(query.sort));
    f.push_sql(" LIMIT ");
    f.push_bind(SqlParam::Int(limit));
    f.push_sql(" OFFSET ");
    f.push_bind(SqlParam::Int(offset));
    proof {
        let t1 = text(" ORDER BY "@);
        let t2 = text(order_text(query.sort));
        let t3 = text(" LIMIT "@);
        let t = text(" ORDER BY "@ + order_text(query.sort) + " LIMIT "@);
        assert(cat(cat(t1, t2), t3) =~= t);
        lemma_cat_assoc(w, t1, t2);
        lemma_cat_assoc(w, cat(t1, t2), t3);
        let b1 = bind(ParamView::Int(limit));
        let t4 = text(" OFFSET "@);
        let b2 = bind(ParamView::Int(offset));
        lemma_cat_assoc(w, t, b1);
        lemma_cat_assoc(w, cat(t, b1), t4);
        lemma_cat_assoc(w, cat(cat(t, b1), t4), b2);
    }
    f
}

} // verus!

verus! {

/// Splitting at whitespace: the completed words of `s` and the word still being read at its end.
pub open spec fn split_ws(s: Seq<char>) -> (Seq<Seq<char>>, Seq<char>)
    decreases s.len(),
{
    if s.len() == 0 {
        (Seq::empty(), Seq::empty())
    } else {
        let (ws, cur) = split_ws(s.drop_last());
        let c = s.last();
        if char_is_whitespace(c) {
            if cur.len() > 0 {
                (ws.push(cur), Seq::empty())
            } else {
                (ws, Seq::empty())
            }
        } else {
            (ws, cur.push(c))
        }
    }
}

/// The words of `s`: maximal runs of non-whitespace characters (`str::split_whitespace`).
pub open spec fn words(s: Seq<char>) -> Seq<Seq<char>> {
    let (ws, cur) = split_ws(s);
    if cur.len() > 0 {
        ws.push(cur)
    } else {
        ws
    }
}

/// Characters kept in a search term: alphanumerics and `_`. Everything else, the FTS5 syntax
/// characters `"`, `(`, `)`, `*`, `-`, `+` among them, is removed.
pub open spec fn fts_keeps(c: char) -> bool {
    char_is_alphanumeric(c) || c == '_'
}

/// A word with every character that FTS5 could read as syntax removed.
pub open spec fn clean_word(w: Seq<char>) -> Seq<char>
    decreases w.len(),
{
    if w.len() == 0 {
        Seq::empty()
    } else if fts_keeps(w.last()) {
        clean_word(w.drop_last()).push(w.last())
    } else {
        clean_word(w.drop_last())
    }
}

/// Adds one cleaned word to a match expression as a prefix term `word*`, separated by a space;
/// a word that cleans to nothing adds nothing.
pub open spec fn add_term(expr: Seq<char>, clean: Seq<char>) -> Seq<char> {
    if clean.len() == 0 {
        expr
    } else if expr.len() == 0 {
        clean.push('*')
    } else {
        expr + seq![' '] + clean.push('*')
    }
}

/// The match expression for the given words.
pub open spec fn fts_expr(ws: Seq<Seq<char>>) -> Seq<char>
    decreases ws.len(),
{
    if ws.len() == 0 {
        Seq::empty()
    } else {
        add_term(fts_expr(ws.drop_last()), clean_word(ws.last()))
    }
}

/// Builds the FTS5 match expression for user text: every word becomes a prefix term `word*`
/// after removing every character other than alphanumerics and `_` (so that input cannot
/// break the match syntax); words that become empty are dropped. Empty when no term is left.
pub fn build_fts_query(raw: &str) -> (r: String)
    ensures
        r@ == fts_expr(words(raw@)),
{
    let v = chars_of(raw);
    let mut out = String::new();
    let mut cur = String::new();
    let mut i: usize = 0;
    while i < v.len()
        invariant
            v@ == raw@,
            i <= v@.len(),
            out@ == fts_expr(split_ws(v@.take(i as int)).0),
            cur@ == clean_word(split_ws(v@.take(i as int)).1),
        decreases v@.len() - i,
    {
        let c = v[i];
        let ghost prev = split_ws(v@.take(i as int));
        assert(v@.take(i + 1).drop_last() =~= v@.take(i as int));
        assert(v@.take(i + 1).last() == c);
        if is_whitespace(c) {
            proof {
                if prev.1.len() > 0 {
                    assert(prev.0.push(prev.1).drop_last() =~= prev.0);
                } else {
                    assert(clean_word(prev.1) =~= Seq::<char>::empty());
                }
            }
            if !cur.as_str().is_empty() {
                if !out.as_str().is_empty() {
                    push_char(&mut out, ' ');
                }
                out.append(cur.as_str());
                push_char(&mut out, '*');
                proof {
                    assert(out@ =~= add_term(fts_expr(prev.0), clean_word(prev.1)));
                }
            }
            cur = String::new();
        } else {
            let keep = is_alphanumeric(c) || c == '_';
            if keep {
                push_char(&mut cur, c);
            }
            assert(prev.1.push(c).drop_last() =~= prev.1);
        }
        i += 1;
    }
    let ghost st = split_ws(v@.take(i as int));
    assert(v@.take(i as int) =~= raw@);
    proof {
        if st.1.len() > 0 {
            assert(st.0.push(st.1).drop_last() =~= st.0);
        } else {
            assert(clean_word(st.1) =~= Seq::<char>::empty());
        }
    }
    if !cur.as_str().is_empty() {
        if !out.as_str().is_empty() {
            push_char(&mut out, ' ');
        }
        out.append(cur.as_str());
        push_char(&mut out, '*');
        proof {
            assert(out@ =~= add_term(fts_expr(st.0), clean_word(st.1)));
        }
    }
    out
}

proof fn lemma_clean_word_kept(w: Seq<char>)
    ensures
        forall|i: int| 0 <= i < clean_word(w).len() ==> fts_keeps(#[trigger] clean_word(w)[i]),
    decreases w.len(),
{
    if w.len() > 0 {
        lemma_clean_word_kept(w.drop_last());
        let p = clean_word(w.drop_last());
        if fts_keeps(w.last()) {
            assert forall|i: int| 0 <= i < clean_word(w).len() implies fts_keeps(#[trigger] clean_word(w)[i]) by {
                if i < p.len() {
                    assert(clean_word(w)[i] == p[i]);
                }
            }
        }
    }
}

/// The match expression built from user text is made only of kept characters (alphanumerics
/// and `_`), the `*` that ends each term and the spaces between terms: no quote, bracket,
/// minus, plus or other character that FTS5 would read as query syntax.
pub proof fn lemma_fts_expr_is_plain(ws: Seq<Seq<char>>)
    ensures
        forall|i: int|
            0 <= i < fts_expr(ws).len() ==> {
                let c = #[trigger] fts_expr(ws)[i];
                fts_keeps(c) || c == '*' || c == ' '
            },
    decreases ws.len(),
{
    if ws.len() > 0 {
        lemma_fts_expr_is_plain(ws.drop_last());
        let e = fts_expr(ws.drop_last());
        let cw = clean_word(ws.last());
        lemma_clean_word_kept(ws.last());
        if cw.len() > 0 {
            if e.len() == 0 {
                assert forall|i: int| 0 <= i < fts_expr(ws).len() implies ({
                    let c = #[trigger] fts_expr(ws)[i];
                    fts_keeps(c) || c == '*' || c == ' '
                }) by {
                    if i < cw.len() {
                        assert(fts_expr(ws)[i] == cw[i]);
                    }
                }
            } else {
                assert forall|i: int| 0 <= i < fts_expr(ws).len() implies ({
                    let c = #[trigger] fts_expr(ws)[i];
                    fts_keeps(c) || c == '*' || c == ' '
                }) by {
                    if i < e.len() {
                        assert(fts_expr(ws)[i] == e[i]);
                    } else if i > e.len() && i < e.len() + 1 + cw.len() {
                        assert(fts_expr(ws)[i] == cw[i - e.len() - 1]);
                    }
                }
            }
        }
    }
}

/// The full-text match expression of a query's free text: `None` when there is no text or
/// when nothing searchable is left of it (then the listing is not restricted by text).
pub fn search_term(text: Option<&str>) -> (r: Option<String>)
    ensures
        match text {
            None => r is None,
            Some(t) => if fts_expr(words(t@)).len() == 0 {
                r is None
            } else {
                r matches Some(term) && term@ == fts_expr(words(t@))
            },
        },
{
    match text {
        None => None,
        Some(t) => {
            let term = build_fts_query(t);
            if term.as_str().is_empty() {
                None
            } else {
                Some(term)
            }
        },
    }
}

} // verus!
