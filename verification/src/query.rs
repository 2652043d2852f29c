//! Construction of the parameterised SQL fragments that list, filter and
//! summarise products: WHERE clauses with consecutively numbered `$n`
//! placeholders, the values bound to them in the same order, and ORDER BY.

use vstd::prelude::*;
use vstd::string::*;

use crate::domain::Decimal;
use crate::text::{blank, decimal, push_decimal, trim, trimmed};

verus! {

// ── Bound values ──────────────────────────────────────────────

/// A value bound to a placeholder.
#[derive(Debug)]
pub enum SqlArg {
    Int(i32),
    Text(String),
    Number(Decimal),
    TextList(Vec<String>),
}

pub enum SqlArgView {
    Int(i32),
    Text(Seq<char>),
    Number(Decimal),
    TextList(Seq<Seq<char>>),
}

impl View for SqlArg {
    type V = SqlArgView;

    open spec fn view(&self) -> SqlArgView {
        match self {
            SqlArg::Int(i) => SqlArgView::Int(*i),
            SqlArg::Text(s) => SqlArgView::Text(s@),
            SqlArg::Number(d) => SqlArgView::Number(*d),
            SqlArg::TextList(v) => SqlArgView::TextList(v@.map_values(|t: String| t@)),
        }
    }
}

pub open spec fn args_view(args: Seq<SqlArg>) -> Seq<SqlArgView> {
    args.map_values(|a: SqlArg| a@)
}

// ── Conditions and their rendering ────────────────────────────

/// One condition of a WHERE clause, rendered with the placeholder number that
/// its position gives it.
pub enum Cond {
    /// `column op $k`
    Compare(Seq<char>, Seq<char>),
    /// `column = ANY($k)`
    AnyOf(Seq<char>),
    /// `(name ILIKE $k OR sku ILIKE $k)`
    Search,
}

pub open spec fn placeholder(k: nat) -> Seq<char> {
    "$"@ + decimal(k)
}

/// The text that a condition adds to a clause, placeholder number `k`.
pub open spec fn render(c: Cond, k: nat) -> Seq<char> {
    match c {
        Cond::Compare(col, op) => " AND "@ + col + op + placeholder(k),
        Cond::AnyOf(col) => " AND "@ + col + " = ANY("@ + placeholder(k) + ")"@,
        Cond::Search => " AND (name ILIKE "@ + placeholder(k) + " OR sku ILIKE "@ + placeholder(k) + ")"@,
    }
}

/// The conditions rendered in order, numbered from 1.
pub open spec fn render_all(conds: Seq<Cond>) -> Seq<char>
    decreases conds.len(),
{
    if conds.len() == 0 {
        Seq::empty()
    } else {
        render_all(conds.drop_last()) + render(conds.last(), conds.len())
    }
}

/// Appends `$k`.
fn push_placeholder(text: &mut String, k: usize)
    ensures
        final(text)@ == old(text)@ + placeholder(k as nat),
{
    text.append("$");
    push_decimal(text, k as u64);
    assert(old(text)@ + "$"@ + decimal(k as nat) =~= old(text)@ + placeholder(k as nat));
}

/// A WHERE clause under construction: its text, the bound values, and (as
/// ghost state) the conditions added so far.
pub struct ClauseBuilder {
    pub text: String,
    pub args: Vec<SqlArg>,
    pub count: usize,
    pub conds: Ghost<Seq<Cond>>,
    pub base: Ghost<Seq<char>>,
}

impl ClauseBuilder {
    pub open spec fn inv(&self) -> bool {
        &&& self.text@ == self.base@ + render_all(self.conds@)
        &&& self.count == self.conds@.len()
        &&& self.args@.len() == self.conds@.len()
    }

    pub fn new(base: &str) -> (b: ClauseBuilder)
        ensures
            b.inv(),
            b.base@ == base@,
            b.conds@ == Seq::<Cond>::empty(),
            b.args@ == Seq::<SqlArg>::empty(),
    {
        let b = ClauseBuilder {
            text: String::from_str(base),
            args: Vec::new(),
            count: 0,
            conds: Ghost(Seq::empty()),
            base: Ghost(base@),
        };
        assert(b.text@ =~= b.base@ + render_all(b.conds@));
        b
    }

    /// Adds `column op $k` binding `value`, where `k` is the next number.
    pub fn compare(&mut self, column: &str, op: &str, value: SqlArg)
        requires
            old(self).inv(),
            old(self).count < usize::MAX,
        ensures
            final(self).inv(),
            final(self).base == old(self).base,
            final(self).conds@ == old(self).conds@.push(Cond::Compare(column@, op@)),
            final(self).args@ == old(self).args@.push(value),
    {
        let k = self.count + 1;
        let ghost old_text = self.text@;
        self.text.append(" AND ");
        self.text.append(column);
        self.text.append(op);
        push_placeholder(&mut self.text, k);
        self.args.push(value);
        self.count = k;
        let ghost c = Cond::Compare(column@, op@);
        proof {
            let nc = self.conds@.push(c);
            assert(nc.drop_last() =~= self.conds@);
            assert(render_all(nc) == render_all(self.conds@) + render(c, k as nat));
            assert(self.text@ =~= old_text + render(c, k as nat));
            assert(self.text@ =~= self.base@ + render_all(nc));
            self.conds = Ghost(nc);
        }
    }

    /// Adds `column = ANY($k)` binding `value`.
    pub fn any_of(&mut self, column: &str, value: SqlArg)
        requires
            old(self).inv(),
            old(self).count < usize::MAX,
        ensures
            final(self).inv(),
            final(self).base == old(self).base,
            final(self).conds@ == old(self).conds@.push(Cond::AnyOf(column@)),
            final(self).args@ == old(self).args@.push(value),
    {
        let k = self.count + 1;
        let ghost old_text = self.text@;
        self.text.append(" AND ");
        self.text.append(column);
        self.text.append(" = ANY(");
        push_placeholder(&mut self.text, k);
        self.text.append(")");
        self.args.push(value);
        self.count = k;
        let ghost c = Cond::AnyOf(column@);
        proof {
            let nc = self.conds@.push(c);
            assert(nc.drop_last() =~= self.conds@);
            assert(render_all(nc) == render_all(self.conds@) + render(c, k as nat));
            assert(self.text@ =~= old_text + render(c, k as nat));
            assert(self.text@ =~= self.base@ + render_all(nc));
            self.conds = Ghost(nc);
        }
    }

    /// Adds the name-or-SKU search binding `pattern` once.
    pub fn search(&mut self, pattern: SqlArg)
        requires
            old(self).inv(),
            old(self).count < usize::MAX,
        ensures
            final(self).inv(),
            final(self).base == old(self).base,
            final(self).conds@ == old(self).conds@.push(Cond::Search),
            final(self).args@ == old(self).args@.push(pattern),
    {
        let k = self.count + 1;
        let ghost old_text = self.text@;
        self.text.append(" AND (name ILIKE ");
        push_placeholder(&mut self.text, k);
        self.text.append(" OR sku ILIKE ");
        push_placeholder(&mut self.text, k);
        self.text.append(")");
        self.args.push(pattern);
        self.count = k;
        let ghost c = Cond::Search;
        proof {
            let nc = self.conds@.push(c);
            assert(nc.drop_last() =~= self.conds@);
            assert(render_all(nc) == render_all(self.conds@) + render(c, k as nat));
            assert(self.text@ =~= old_text + render(c, k as nat));
            assert(self.text@ =~= self.base@ + render_all(nc));
            self.conds = Ghost(nc);
        }
    }
}

/// A condition together with the value bound to it.
pub type Filter = (Cond, SqlArgView);

pub open spec fn conds_of(fs: Seq<Filter>) -> Seq<Cond> {
    fs.map_values(|f: Filter| f.0)
}

pub open spec fn values_of(fs: Seq<Filter>) -> Seq<SqlArgView> {
    fs.map_values(|f: Filter| f.1)
}

/// The equality filter on `column` when `v` is present, nothing otherwise.
pub open spec fn opt_filter(c: Cond, v: Option<SqlArgView>) -> Seq<Filter> {
    match v {
        Some(x) => seq![(c, x)],
        None => Seq::empty(),
    }
}

pub open spec fn int_arg(v: Option<i32>) -> Option<SqlArgView> {
    match v {
        Some(i) => Some(SqlArgView::Int(i)),
        None => None,
    }
}

pub open spec fn text_arg(v: Option<String>) -> Option<SqlArgView> {
    match v {
        Some(s) => Some(SqlArgView::Text(s@)),
        None => None,
    }
}

pub open spec fn number_arg(v: Option<Decimal>) -> Option<SqlArgView> {
    match v {
        Some(d) => Some(SqlArgView::Number(d)),
        None => None,
    }
}

pub open spec fn eq(column: Seq<char>) -> Cond {
    Cond::Compare(column, " = "@)
}

fn add_int(b: &mut ClauseBuilder, column: &str, op: &str, v: Option<i32>, Ghost(fs): Ghost<Seq<Filter>>) -> (nfs: Ghost<Seq<Filter>>)
    requires
        old(b).inv(),
        old(b).count < usize::MAX - 32,
        old(b).conds@ == conds_of(fs),
        args_view(old(b).args@) == values_of(fs),
    ensures
        final(b).inv(),
        final(b).base == old(b).base,
        final(b).count <= old(b).count + 1,
        nfs@ == fs + opt_filter(Cond::Compare(column@, op@), int_arg(v)),
        final(b).conds@ == conds_of(nfs@),
        args_view(final(b).args@) == values_of(nfs@),
{
    match v {
        Some(i) => {
            b.compare(column, op, SqlArg::Int(i));
            let ghost n = fs + seq![(Cond::Compare(column@, op@), SqlArgView::Int(i))];
            assert(conds_of(n) =~= conds_of(fs).push(Cond::Compare(column@, op@)));
            assert(values_of(n) =~= values_of(fs).push(SqlArgView::Int(i)));
            assert(args_view(b.args@) =~= values_of(n));
            Ghost(n)
        },
        None => {
            assert(fs + Seq::<Filter>::empty() =~= fs);
            Ghost(fs)
        },
    }
}

fn add_text(b: &mut ClauseBuilder, column: &str, v: &Option<String>, Ghost(fs): Ghost<Seq<Filter>>) -> (nfs: Ghost<Seq<Filter>>)
    requires
        old(b).inv(),
        old(b).count < usize::MAX - 32,
        old(b).conds@ == conds_of(fs),
        args_view(old(b).args@) == values_of(fs),
    ensures
        final(b).inv(),
        final(b).base == old(b).base,
        final(b).count <= old(b).count + 1,
        nfs@ == fs + opt_filter(eq(column@), text_arg(*v)),
        final(b).conds@ == conds_of(nfs@),
        args_view(final(b).args@) == values_of(nfs@),
{
    match v {
        Some(s) => {
            b.compare(column, " = ", SqlArg::Text(s.clone()));
            let ghost n = fs + seq![(eq(column@), SqlArgView::Text(s@))];
            assert(conds_of(n) =~= conds_of(fs).push(eq(column@)));
            assert(values_of(n) =~= values_of(fs).push(SqlArgView::Text(s@)));
            assert(args_view(b.args@) =~= values_of(n));
            Ghost(n)
        },
        None => {
            assert(fs + Seq::<Filter>::empty() =~= fs);
            Ghost(fs)
        },
    }
}

fn add_number(b: &mut ClauseBuilder, column: &str, op: &str, v: Option<Decimal>, Ghost(fs): Ghost<Seq<Filter>>) -> (nfs: Ghost<Seq<Filter>>)
    requires
        old(b).inv(),
        old(b).count < usize::MAX - 32,
        old(b).conds@ == conds_of(fs),
        args_view(old(b).args@) == values_of(fs),
    ensures
        final(b).inv(),
        final(b).base == old(b).base,
        final(b).count <= old(b).count + 1,
        nfs@ == fs + opt_filter(Cond::Compare(column@, op@), number_arg(v)),
        final(b).conds@ == conds_of(nfs@),
        args_view(final(b).args@) == values_of(nfs@),
{
    match v {
        Some(d) => {
            b.compare(column, op, SqlArg::Number(d));
            let ghost n = fs + seq![(Cond::Compare(column@, op@), SqlArgView::Number(d))];
            assert(conds_of(n) =~= conds_of(fs).push(Cond::Compare(column@, op@)));
            assert(values_of(n) =~= values_of(fs).push(SqlArgView::Number(d)));
            assert(args_view(b.args@) =~= values_of(n));
            Ghost(n)
        },
        None => {
            assert(fs + Seq::<Filter>::empty() =~= fs);
            Ghost(fs)
        },
    }
}

// ── Product listing ───────────────────────────────────────────

/// Columns by which products can be sorted.
#[derive(Debug)]
pub enum ProductSortField {
    CreatedAt,
    UpdatedAt,
    Price,
    Name,
}

#[derive(Debug)]
pub enum SortOrder {
    Asc,
    Desc,
}

/// Query parameters of the product list; enumerated filters are carried as
/// their textual codes.
#[derive(Debug)]
pub struct ProductListQuery {
    pub page: Option<i64>,
    pub per_page: Option<i64>,
    pub brand_id: Option<i32>,
    pub category_id: Option<i32>,
    pub product_type: Option<String>,
    pub status: Option<String>,
    pub gender: Option<String>,
    pub price_min: Option<Decimal>,
    pub price_max: Option<Decimal>,
    pub condition: Option<String>,
    pub size_value: Option<String>,
    pub size_value2: Option<String>,
    pub size_system: Option<String>,
    pub size_group: Option<String>,
    pub sort_by: Option<ProductSortField>,
    pub sort_order: Option<SortOrder>,
    pub search: Option<String>,
}

/// The search filter: present when the search text is not blank; it matches
/// the name or the SKU against `%<trimmed text>%`.
pub open spec fn search_filter(search: Option<String>) -> Seq<Filter> {
    match search {
        Some(s) => if trimmed(s@).len() == 0 {
            Seq::empty()
        } else {
            seq![(Cond::Search, SqlArgView::Text("%"@ + trimmed(s@) + "%"@))]
        },
        None => Seq::empty(),
    }
}

/// The filters of a product list query, in the order in which they are
/// numbered: the equality filters, the search, then the price bounds.
pub open spec fn list_filters(q: ProductListQuery) -> Seq<Filter> {
    opt_filter(eq("brand_id"@), int_arg(q.brand_id))
    + opt_filter(eq("category_id"@), int_arg(q.category_id))
    + opt_filter(eq("\"type\""@), text_arg(q.product_type))
    + opt_filter(eq("status"@), text_arg(q.status))
    + opt_filter(eq("gender"@), text_arg(q.gender))
    + opt_filter(eq("condition"@), text_arg(q.condition))
    + opt_filter(eq("size_value"@), text_arg(q.size_value))
    + opt_filter(eq("size_value2"@), text_arg(q.size_value2))
    + opt_filter(eq("size_system"@), text_arg(q.size_system))
    + opt_filter(eq("size_group"@), text_arg(q.size_group))
    + search_filter(q.search)
    + opt_filter(Cond::Compare("purchase_price"@, " >= "@), number_arg(q.price_min))
    + opt_filter(Cond::Compare("purchase_price"@, " <= "@), number_arg(q.price_max))
}

/// A search of only whitespace filters nothing: the query selects exactly
/// what it selects without a search.
pub proof fn lemma_blank_search_ignored(q: ProductListQuery)
    requires
        q.search matches Some(s) && crate::text::is_blank(s@),
    ensures
        list_filters(q) == list_filters(ProductListQuery { search: None, ..q }),
{
    crate::text::lemma_blank_iff_trimmed_empty(q.search->0@);
}

/// A WHERE clause with the values for its placeholders.
#[derive(Debug)]
pub struct FilterResult {
    pub where_clause: String,
    pub args: Vec<SqlArg>,
    pub param_count: usize,
}

/// Builds the WHERE clause of a product list query: `WHERE 1=1` followed by
/// one condition per given filter, placeholders numbered from `$1`.
pub fn build_filters(query: &ProductListQuery) -> (res: FilterResult)
    ensures
        res.where_clause@ == "WHERE 1=1"@ + render_all(conds_of(list_filters(*query))),
        args_view(res.args@) == values_of(list_filters(*query)),
        res.param_count == list_filters(*query).len(),
{
    let mut b = ClauseBuilder::new("WHERE 1=1");
    let ghost fs0: Seq<Filter> = Seq::empty();
    assert(conds_of(fs0) =~= Seq::<Cond>::empty());
    assert(values_of(fs0) =~= Seq::<SqlArgView>::empty());
    assert(args_view(b.args@) =~= Seq::<SqlArgView>::empty());
    let Ghost(fs) = add_int(&mut b, "brand_id", " = ", query.brand_id, Ghost(fs0));
    let Ghost(fs) = add_int(&mut b, "category_id", " = ", query.category_id, Ghost(fs));
    let Ghost(fs) = add_text(&mut b, "\"type\"", &query.product_type, Ghost(fs));
    let Ghost(fs) = add_text(&mut b, "status", &query.status, Ghost(fs));
    let Ghost(fs) = add_text(&mut b, "gender", &query.gender, Ghost(fs));
    let Ghost(fs) = add_text(&mut b, "condition", &query.condition, Ghost(fs));
    let Ghost(fs) = add_text(&mut b, "size_value", &query.size_value, Ghost(fs));
    let Ghost(fs) = add_text(&mut b, "size_value2", &query.size_value2, Ghost(fs));
    let Ghost(fs) = add_text(&mut b, "size_system", &query.size_system, Ghost(fs));
    let Ghost(fs) = add_text(&mut b, "size_group", &query.size_group, Ghost(fs));
    let ghost fs_s = fs + search_filter(query.search);
    match &query.search {
        Some(search) => {
            let t = trim(search.as_str());
            if t.unicode_len() != 0 {
                let pattern = String::from_str("%").concat(t).concat("%");
                let ghost pv = pattern@;
                b.search(SqlArg::Text(pattern));
                assert(conds_of(fs_s) =~= conds_of(fs).push(Cond::Search));
                assert(values_of(fs_s) =~= values_of(fs).push(SqlArgView::Text(pv)));
                assert(args_view(b.args@) =~= values_of(fs_s));
            } else {
                assert(fs_s =~= fs);
            }
        },
        None => {
            assert(fs_s =~= fs);
        },
    }
    let Ghost(fs) = add_number(&mut b, "purchase_price", " >= ", query.price_min, Ghost(fs_s));
    let Ghost(fs) = add_number(&mut b, "purchase_price", " <= ", query.price_max, Ghost(fs));
    assert(fs =~= list_filters(*query));
    FilterResult { where_clause: b.text, args: b.args, param_count: b.count }
}

pub open spec fn sort_column(f: Option<ProductSortField>) -> Seq<char> {
    match f {
        Some(ProductSortField::Price) => "purchase_price"@,
        Some(ProductSortField::Name) => "name"@,
        Some(ProductSortField::UpdatedAt) => "updated_at"@,
        Some(ProductSortField::CreatedAt) | None => "created_at"@,
    }
}

pub open spec fn sort_direction(o: Option<SortOrder>) -> Seq<char> {
    match o {
        Some(SortOrder::Asc) => "ASC"@,
        Some(SortOrder::Desc) | None => "DESC"@,
    }
}

/// `ORDER BY <column> <direction>`; newest first unless asked otherwise.
pub fn build_order_by(query: &ProductListQuery) -> (res: String)
    ensures
        res@ == "ORDER BY "@ + sort_column(query.sort_by) + " "@ + sort_direction(query.sort_order),
{
    let column = match &query.sort_by {
        Some(ProductSortField::Price) => "purchase_price",
        Some(ProductSortField::Name) => "name",
        Some(ProductSortField::UpdatedAt) => "updated_at",
        Some(ProductSortField::CreatedAt) | None => "created_at",
    };
    let direction = match &query.sort_order {
        Some(SortOrder::Asc) => "ASC",
        Some(SortOrder::Desc) | None => "DESC",
    };
    String::from_str("ORDER BY ").concat(column).concat(" ").concat(direction)
}

/// The statement that counts the products a WHERE clause selects.
pub fn count_sql(where_clause: &str) -> (res: String)
    ensures
        res@ == "SELECT COUNT(*) as count FROM v_product_full "@ + where_clause@,
{
    String::from_str("SELECT COUNT(*) as count FROM v_product_full ").concat(where_clause)
}

/// The statement that reads one page of products: the filters' placeholders
/// come first, then `LIMIT $n+1 OFFSET $n+2`.
pub fn page_sql(filters: &FilterResult, order_by: &str) -> (res: String)
    requires
        filters.param_count < usize::MAX - 2,
    ensures
        res@ == "SELECT * FROM v_product_full "@ + filters.where_clause@ + " "@ + order_by@
            + " LIMIT "@ + placeholder(filters.param_count as nat + 1) + " OFFSET "@
            + placeholder(filters.param_count as nat + 2),
{
    let next = filters.param_count + 1;
    let mut s = String::from_str("SELECT * FROM v_product_full ").concat(filters.where_clause.as_str());
    s.append(" ");
    s.append(order_by);
    s.append(" LIMIT ");
    push_placeholder(&mut s, next);
    s.append(" OFFSET ");
    push_placeholder(&mut s, next + 1);
    s
}

// ── Filter options and available sizes ────────────────────────

/// The WHERE clause that every summary starts from.
pub open spec fn not_deleted() -> Seq<char> {
    "p.is_deleted = false"@
}

/// Query parameters of the filter-options summary.
#[derive(Debug)]
pub struct FilterOptionsQuery {
    pub brand_id: Option<i32>,
    pub category_id: Option<i32>,
    pub product_type: Option<String>,
    pub gender: Option<String>,
    pub status: Option<String>,
    pub condition: Option<String>,
    pub color: Option<String>,
    pub price_min: Option<Decimal>,
    pub price_max: Option<Decimal>,
}

/// The filters of the filter-options summary, in numbering order.
pub open spec fn filter_options_filters(q: FilterOptionsQuery) -> Seq<Filter> {
    opt_filter(eq("p.brand_id"@), int_arg(q.brand_id))
    + opt_filter(eq("p.category_id"@), int_arg(q.category_id))
    + opt_filter(eq("c.product_type"@), text_arg(q.product_type))
    + opt_filter(eq("c.gender"@), text_arg(q.gender))
    + opt_filter(eq("p.status"@), text_arg(q.status))
    + opt_filter(eq("pd.condition"@), text_arg(q.condition))
    + opt_filter(eq("pd.color"@), text_arg(q.color))
    + opt_filter(Cond::Compare("p.purchase_price"@, " >= "@), number_arg(q.price_min))
    + opt_filter(Cond::Compare("p.purchase_price"@, " <= "@), number_arg(q.price_max))
}

/// The condition list (joined by ` AND `) of the filter-options summary and
/// the values for its placeholders, in order.
pub fn filter_options_where(query: &FilterOptionsQuery) -> (res: FilterResult)
    ensures
        res.where_clause@ == not_deleted() + render_all(conds_of(filter_options_filters(*query))),
        args_view(res.args@) == values_of(filter_options_filters(*query)),
        res.param_count == filter_options_filters(*query).len(),
{
    let mut b = ClauseBuilder::new("p.is_deleted = false");
    let ghost fs0: Seq<Filter> = Seq::empty();
    assert(conds_of(fs0) =~= Seq::<Cond>::empty());
    assert(values_of(fs0) =~= Seq::<SqlArgView>::empty());
    assert(args_view(b.args@) =~= Seq::<SqlArgView>::empty());
    let Ghost(fs) = add_int(&mut b, "p.brand_id", " = ", query.brand_id, Ghost(fs0));
    let Ghost(fs) = add_int(&mut b, "p.category_id", " = ", query.category_id, Ghost(fs));
    let Ghost(fs) = add_text(&mut b, "c.product_type", &query.product_type, Ghost(fs));
    let Ghost(fs) = add_text(&mut b, "c.gender", &query.gender, Ghost(fs));
    let Ghost(fs) = add_text(&mut b, "p.status", &query.status, Ghost(fs));
    let Ghost(fs) = add_text(&mut b, "pd.condition", &query.condition, Ghost(fs));
    let Ghost(fs) = add_text(&mut b, "pd.color", &query.color, Ghost(fs));
    let Ghost(fs) = add_number(&mut b, "p.purchase_price", " >= ", query.price_min, Ghost(fs));
    let Ghost(fs) = add_number(&mut b, "p.purchase_price", " <= ", query.price_max, Ghost(fs));
    assert(fs =~= filter_options_filters(*query));
    FilterResult { where_clause: b.text, args: b.args, param_count: b.count }
}

/// Query parameters of the available-sizes summary.
#[derive(Debug)]
pub struct AvailableSizesQuery {
    pub category_id: Option<i32>,
    pub size_group: Option<String>,
    pub brand_id: Option<i32>,
    pub gender: Option<String>,
    pub status: Option<String>,
    pub condition: Option<String>,
    pub color: Option<String>,
    pub size_system: Option<String>,
    pub size_systems: Option<String>,
    pub price_min: Option<Decimal>,
    pub price_max: Option<Decimal>,
}

/// Where the size group of an available-sizes query comes from.
#[derive(Debug)]
pub enum SizeGroupSource {
    /// Looked up from this category.
    Category(i32),
    /// Given by the query.
    Given(String),
    /// Neither is given: the answer is the empty "unknown" summary.
    Unknown,
}

/// The category's size group wins over one given directly.
pub fn size_group_source(query: &AvailableSizesQuery) -> (res: SizeGroupSource)
    ensures
        query.category_id matches Some(c) ==> res == SizeGroupSource::Category(c),
        query.category_id is None && query.size_group is Some ==>
            (res matches SizeGroupSource::Given(g) && g@ == query.size_group->0@),
        query.category_id is None && query.size_group is None ==> res is Unknown,
{
    if let Some(cid) = query.category_id {
        SizeGroupSource::Category(cid)
    } else if let Some(sg) = &query.size_group {
        SizeGroupSource::Given(sg.clone())
    } else {
        SizeGroupSource::Unknown
    }
}

/// The size group of a looked-up category; `one_size` when the category does not exist.
pub fn resolve_category_size_group(found: Option<String>) -> (res: String)
    ensures
        found matches Some(g) ==> res@ == g@,
        found is None ==> res@ == "one_size"@,
{
    match found {
        Some(g) => g,
        None => String::from_str("one_size"),
    }
}

/// The size values found for a size group.
#[derive(Debug)]
pub struct AvailableSizes {
    pub size_group: String,
    pub values: Vec<String>,
    pub values2: Vec<String>,
    pub systems: Vec<String>,
    pub widths: Vec<String>,
}

impl AvailableSizes {
    /// The summary for a query that names no size group.
    pub fn unknown() -> (res: AvailableSizes)
        ensures
            res.size_group@ == "unknown"@,
            res.values@.len() == 0 && res.values2@.len() == 0,
            res.systems@.len() == 0 && res.widths@.len() == 0,
    {
        AvailableSizes {
            size_group: String::from_str("unknown"),
            values: Vec::new(),
            values2: Vec::new(),
            systems: Vec::new(),
            widths: Vec::new(),
        }
    }
}

pub open spec fn strings_view(v: Seq<String>) -> Seq<Seq<char>> {
    v.map_values(|t: String| t@)
}

/// The `ANY` filter over the listed size systems, when there are any.
pub open spec fn systems_filter(systems: Seq<String>) -> Seq<Filter> {
    if systems.len() == 0 {
        Seq::empty()
    } else {
        seq![(Cond::AnyOf("pd.size_system"@), SqlArgView::TextList(strings_view(systems)))]
    }
}

/// The filters of the available-sizes summary, in numbering order: the
/// resolved size group is always `$1`.
pub open spec fn available_sizes_filters(q: AvailableSizesQuery, size_group: Seq<char>, systems: Seq<String>) -> Seq<Filter> {
    seq![(eq("c.size_group"@), SqlArgView::Text(size_group))]
    + opt_filter(eq("p.category_id"@), int_arg(q.category_id))
    + opt_filter(eq("p.brand_id"@), int_arg(q.brand_id))
    + opt_filter(eq("c.gender"@), text_arg(q.gender))
    + opt_filter(eq("p.status"@), text_arg(q.status))
    + opt_filter(eq("pd.condition"@), text_arg(q.condition))
    + opt_filter(eq("pd.color"@), text_arg(q.color))
    + opt_filter(eq("pd.size_system"@), text_arg(q.size_system))
    + systems_filter(systems)
    + opt_filter(Cond::Compare("p.purchase_price"@, " >= "@), number_arg(q.price_min))
    + opt_filter(Cond::Compare("p.purchase_price"@, " <= "@), number_arg(q.price_max))
}

/// The condition list (joined by ` AND `) of the available-sizes summary for
/// the resolved size group and the size systems listed in the query.
pub fn available_sizes_where(query: &AvailableSizesQuery, size_group: &str, systems: &Vec<String>) -> (res: FilterResult)
    ensures
        res.where_clause@ == not_deleted() + render_all(conds_of(available_sizes_filters(*query, size_group@, systems@))),
        args_view(res.args@) == values_of(available_sizes_filters(*query, size_group@, systems@)),
        res.param_count == available_sizes_filters(*query, size_group@, systems@).len(),
{
    let mut b = ClauseBuilder::new("p.is_deleted = false");
    assert(args_view(b.args@) =~= Seq::<SqlArgView>::empty());
    b.compare("c.size_group", " = ", SqlArg::Text(String::from_str(size_group)));
    let ghost fs0: Seq<Filter> = seq![(eq("c.size_group"@), SqlArgView::Text(size_group@))];
    assert(conds_of(fs0) =~= b.conds@);
    assert(values_of(fs0) =~= args_view(b.args@));
    let Ghost(fs) = add_int(&mut b, "p.category_id", " = ", query.category_id, Ghost(fs0));
    let Ghost(fs) = add_int(&mut b, "p.brand_id", " = ", query.brand_id, Ghost(fs));
    let Ghost(fs) = add_text(&mut b, "c.gender", &query.gender, Ghost(fs));
    let Ghost(fs) = add_text(&mut b, "p.status", &query.status, Ghost(fs));
    let Ghost(fs) = add_text(&mut b, "pd.condition", &query.condition, Ghost(fs));
    let Ghost(fs) = add_text(&mut b, "pd.color", &query.color, Ghost(fs));
    let Ghost(fs) = add_text(&mut b, "pd.size_system", &query.size_system, Ghost(fs));
    let ghost fs_s = fs + systems_filter(systems@);
    if systems.len() != 0 {
        let list = systems.clone();
        assert(list@ =~= systems@);
        b.any_of("pd.size_system", SqlArg::TextList(list));
        assert(conds_of(fs_s) =~= conds_of(fs).push(Cond::AnyOf("pd.size_system"@)));
        assert(values_of(fs_s) =~= values_of(fs).push(SqlArgView::TextList(strings_view(systems@))));
        assert(args_view(b.args@) =~= values_of(fs_s));
    } else {
        assert(fs_s =~= fs);
    }
    let Ghost(fs) = add_number(&mut b, "p.purchase_price", " >= ", query.price_min, Ghost(fs_s));
    let Ghost(fs) = add_number(&mut b, "p.purchase_price", " <= ", query.price_max, Ghost(fs));
    assert(fs =~= available_sizes_filters(*query, size_group@, systems@));
    FilterResult { where_clause: b.text, args: b.args, param_count: b.count }
}

// ── What each filter binds ────────────────────────────────────

/// The value bound to the first condition `c` of a filter list; `None` when
/// the list has no such condition.
pub open spec fn bound_value(fs: Seq<Filter>, c: Cond) -> Option<SqlArgView>
    decreases fs.len(),
{
    if fs.len() == 0 {
        None
    } else if fs[0].0 == c {
        Some(fs[0].1)
    } else {
        bound_value(fs.drop_first(), c)
    }
}

pub open spec fn or_else(a: Option<SqlArgView>, b: Option<SqlArgView>) -> Option<SqlArgView> {
    if a is Some { a } else { b }
}

/// In a concatenation the first part answers first.
proof fn lemma_bound_concat(a: Seq<Filter>, b: Seq<Filter>, c: Cond)
    ensures
        bound_value(a + b, c) == or_else(bound_value(a, c), bound_value(b, c)),
    decreases a.len(),
{
    if a.len() == 0 {
        assert(a + b =~= b);
    } else {
        assert((a + b)[0] == a[0]);
        assert((a + b).drop_first() =~= a.drop_first() + b);
        lemma_bound_concat(a.drop_first(), b, c);
    }
}

proof fn lemma_bound_single(c2: Cond, v: Option<SqlArgView>, c: Cond)
    ensures
        bound_value(opt_filter(c2, v), c) == (if c2 == c { v } else { None }),
{
    if let Some(x) = v {
        assert(opt_filter(c2, v).drop_first() =~= Seq::<Filter>::empty());
        assert(bound_value(opt_filter(c2, v).drop_first(), c) is None);
    }
}

proof fn lemma_bound_search(s: Option<String>, col: Seq<char>, op: Seq<char>)
    ensures
        bound_value(search_filter(s), Cond::Compare(col, op)) is None,
{
    let fs = search_filter(s);
    if fs.len() > 0 {
        assert(fs.drop_first() =~= Seq::<Filter>::empty());
        assert(bound_value(fs.drop_first(), Cond::Compare(col, op)) is None);
        assert(fs[0].0 == Cond::Search);
    }
}

/// `c2 == c ? v : none`: what a single optional filter answers for `c`.
pub open spec fn single(c2: Cond, v: Option<SqlArgView>, c: Cond) -> Option<SqlArgView> {
    if c2 == c { v } else { None }
}

/// What the equality filters of a product list answer for `c`, in order.
pub open spec fn list_lookup_eq(q: ProductListQuery, c: Cond) -> Option<SqlArgView> {
    let a = or_else(single(eq("brand_id"@), int_arg(q.brand_id), c), single(eq("category_id"@), int_arg(q.category_id), c));
    let b = or_else(single(eq("\"type\""@), text_arg(q.product_type), c), single(eq("status"@), text_arg(q.status), c));
    let d = or_else(single(eq("gender"@), text_arg(q.gender), c), single(eq("condition"@), text_arg(q.condition), c));
    let e = or_else(single(eq("size_value"@), text_arg(q.size_value), c), single(eq("size_value2"@), text_arg(q.size_value2), c));
    let f = or_else(single(eq("size_system"@), text_arg(q.size_system), c), single(eq("size_group"@), text_arg(q.size_group), c));
    or_else(or_else(or_else(a, b), or_else(d, e)), f)
}

/// What the price bounds of a product list answer for `c`.
pub open spec fn list_lookup_price(q: ProductListQuery, c: Cond) -> Option<SqlArgView> {
    or_else(
        single(Cond::Compare("purchase_price"@, " >= "@), number_arg(q.price_min), c),
        single(Cond::Compare("purchase_price"@, " <= "@), number_arg(q.price_max), c),
    )
}

proof fn lemma_list_lookup(q: ProductListQuery, c: Cond)
    requires
        c is Compare,
    ensures
        bound_value(list_filters(q), c) == or_else(list_lookup_eq(q, c), list_lookup_price(q, c)),
{
    let p1 = opt_filter(eq("brand_id"@), int_arg(q.brand_id));
    let p2 = opt_filter(eq("category_id"@), int_arg(q.category_id));
    let p3 = opt_filter(eq("\"type\""@), text_arg(q.product_type));
    let p4 = opt_filter(eq("status"@), text_arg(q.status));
    let p5 = opt_filter(eq("gender"@), text_arg(q.gender));
    let p6 = opt_filter(eq("condition"@), text_arg(q.condition));
    let p7 = opt_filter(eq("size_value"@), text_arg(q.size_value));
    let p8 = opt_filter(eq("size_value2"@), text_arg(q.size_value2));
    let p9 = opt_filter(eq("size_system"@), text_arg(q.size_system));
    let p10 = opt_filter(eq("size_group"@), text_arg(q.size_group));
    let ps = search_filter(q.search);
    let p11 = opt_filter(Cond::Compare("purchase_price"@, " >= "@), number_arg(q.price_min));
    let p12 = opt_filter(Cond::Compare("purchase_price"@, " <= "@), number_arg(q.price_max));
    lemma_bound_single(eq("brand_id"@), int_arg(q.brand_id), c);
    lemma_bound_single(eq("category_id"@), int_arg(q.category_id), c);
    lemma_bound_single(eq("\"type\""@), text_arg(q.product_type), c);
    lemma_bound_single(eq("status"@), text_arg(q.status), c);
    lemma_bound_single(eq("gender"@), text_arg(q.gender), c);
    lemma_bound_single(eq("condition"@), text_arg(q.condition), c);
    lemma_bound_single(eq("size_value"@), text_arg(q.size_value), c);
    lemma_bound_single(eq("size_value2"@), text_arg(q.size_value2), c);
    lemma_bound_single(eq("size_system"@), text_arg(q.size_system), c);
    lemma_bound_single(eq("size_group"@), text_arg(q.size_group), c);
    lemma_bound_single(Cond::Compare("purchase_price"@, " >= "@), number_arg(q.price_min), c);
    lemma_bound_single(Cond::Compare("purchase_price"@, " <= "@), number_arg(q.price_max), c);
    lemma_bound_search(q.search, c->Compare_0, c->Compare_1);
    assert(c == Cond::Compare(c->Compare_0, c->Compare_1));
    lemma_bound_concat(p1, p2, c);
    lemma_bound_concat(p1 + p2, p3, c);
    lemma_bound_concat(p1 + p2 + p3, p4, c);
    lemma_bound_concat(p1 + p2 + p3 + p4, p5, c);
    lemma_bound_concat(p1 + p2 + p3 + p4 + p5, p6, c);
    lemma_bound_concat(p1 + p2 + p3 + p4 + p5 + p6, p7, c);
    lemma_bound_concat(p1 + p2 + p3 + p4 + p5 + p6 + p7, p8, c);
    lemma_bound_concat(p1 + p2 + p3 + p4 + p5 + p6 + p7 + p8, p9, c);
    lemma_bound_concat(p1 + p2 + p3 + p4 + p5 + p6 + p7 + p8 + p9, p10, c);
    lemma_bound_concat(p1 + p2 + p3 + p4 + p5 + p6 + p7 + p8 + p9 + p10, ps, c);
    lemma_bound_concat(p1 + p2 + p3 + p4 + p5 + p6 + p7 + p8 + p9 + p10 + ps, p11, c);
    lemma_bound_concat(p1 + p2 + p3 + p4 + p5 + p6 + p7 + p8 + p9 + p10 + ps + p11, p12, c);
}

/// Every filter of a product list binds its own query field: the condition
/// on a column is present exactly when the query gives that field, and the
/// value bound to it is that field's value.
pub proof fn lemma_list_filters_bind_own_fields(q: ProductListQuery)
    ensures
        bound_value(list_filters(q), eq("brand_id"@)) == int_arg(q.brand_id),
        bound_value(list_filters(q), eq("category_id"@)) == int_arg(q.category_id),
        bound_value(list_filters(q), eq("\"type\""@)) == text_arg(q.product_type),
        bound_value(list_filters(q), eq("status"@)) == text_arg(q.status),
        bound_value(list_filters(q), eq("gender"@)) == text_arg(q.gender),
        bound_value(list_filters(q), eq("condition"@)) == text_arg(q.condition),
        bound_value(list_filters(q), eq("size_value"@)) == text_arg(q.size_value),
        bound_value(list_filters(q), eq("size_value2"@)) == text_arg(q.size_value2),
        bound_value(list_filters(q), eq("size_system"@)) == text_arg(q.size_system),
        bound_value(list_filters(q), eq("size_group"@)) == text_arg(q.size_group),
        bound_value(list_filters(q), Cond::Compare("purchase_price"@, " >= "@)) == number_arg(q.price_min),
        bound_value(list_filters(q), Cond::Compare("purchase_price"@, " <= "@)) == number_arg(q.price_max),
{
    reveal_strlit("brand_id");
    reveal_strlit("category_id");
    reveal_strlit("\"type\"");
    reveal_strlit("status");
    reveal_strlit("gender");
    reveal_strlit("condition");
    reveal_strlit("size_value");
    reveal_strlit("size_value2");
    reveal_strlit("size_system");
    reveal_strlit("size_group");
    reveal_strlit("purchase_price");
    reveal_strlit(" = ");
    reveal_strlit(" >= ");
    reveal_strlit(" <= ");
    assert("brand_id"@.len() == 8 && "category_id"@.len() == 11 && "\"type\""@.len() == 6);
    assert("status"@.len() == 6 && "gender"@.len() == 6 && "condition"@.len() == 9);
    assert("size_value"@.len() == 10 && "size_value2"@.len() == 11 && "size_system"@.len() == 11);
    assert("size_group"@.len() == 10 && " >= "@.len() == 4 && " <= "@.len() == 4 && " = "@.len() == 3);
    assert("\"type\""@[0] == '"' && "status"@[0] == 's' && "gender"@[0] == 'g');
    assert("category_id"@[0] == 'c' && "size_value2"@[5] == 'v' && "size_system"@[5] == 's');
    assert("size_value"@[5] == 'v' && "size_group"@[5] == 'g' && " >= "@[1] == '>' && " <= "@[1] == '<');
    lemma_list_lookup(q, eq("brand_id"@));
    lemma_list_lookup(q, eq("category_id"@));
    lemma_list_lookup(q, eq("\"type\""@));
    lemma_list_lookup(q, eq("status"@));
    lemma_list_lookup(q, eq("gender"@));
    lemma_list_lookup(q, eq("condition"@));
    lemma_list_lookup(q, eq("size_value"@));
    lemma_list_lookup(q, eq("size_value2"@));
    lemma_list_lookup(q, eq("size_system"@));
    lemma_list_lookup(q, eq("size_group"@));
    lemma_list_lookup(q, Cond::Compare("purchase_price"@, " >= "@));
    lemma_list_lookup(q, Cond::Compare("purchase_price"@, " <= "@));
}

/// What the filters of the filter-options summary answer for `c`, in order.
pub open spec fn options_lookup(q: FilterOptionsQuery, c: Cond) -> Option<SqlArgView> {
    let a = or_else(single(eq("p.brand_id"@), int_arg(q.brand_id), c), single(eq("p.category_id"@), int_arg(q.category_id), c));
    let b = or_else(single(eq("c.product_type"@), text_arg(q.product_type), c), single(eq("c.gender"@), text_arg(q.gender), c));
    let d = or_else(single(eq("p.status"@), text_arg(q.status), c), single(eq("pd.condition"@), text_arg(q.condition), c));
    let e = or_else(single(eq("pd.color"@), text_arg(q.color), c), single(Cond::Compare("p.purchase_price"@, " >= "@), number_arg(q.price_min), c));
    let f = single(Cond::Compare("p.purchase_price"@, " <= "@), number_arg(q.price_max), c);
    or_else(or_else(or_else(a, b), or_else(d, e)), f)
}

proof fn lemma_options_lookup(q: FilterOptionsQuery, c: Cond)
    ensures
        bound_value(filter_options_filters(q), c) == options_lookup(q, c),
{
    let p1 = opt_filter(eq("p.brand_id"@), int_arg(q.brand_id));
    let p2 = opt_filter(eq("p.category_id"@), int_arg(q.category_id));
    let p3 = opt_filter(eq("c.product_type"@), text_arg(q.product_type));
    let p4 = opt_filter(eq("c.gender"@), text_arg(q.gender));
    let p5 = opt_filter(eq("p.status"@), text_arg(q.status));
    let p6 = opt_filter(eq("pd.condition"@), text_arg(q.condition));
    let p7 = opt_filter(eq("pd.color"@), text_arg(q.color));
    let p8 = opt_filter(Cond::Compare("p.purchase_price"@, " >= "@), number_arg(q.price_min));
    let p9 = opt_filter(Cond::Compare("p.purchase_price"@, " <= "@), number_arg(q.price_max));
    lemma_bound_single(eq("p.brand_id"@), int_arg(q.brand_id), c);
    lemma_bound_single(eq("p.category_id"@), int_arg(q.category_id), c);
    lemma_bound_single(eq("c.product_type"@), text_arg(q.product_type), c);
    lemma_bound_single(eq("c.gender"@), text_arg(q.gender), c);
    lemma_bound_single(eq("p.status"@), text_arg(q.status), c);
    lemma_bound_single(eq("pd.condition"@), text_arg(q.condition), c);
    lemma_bound_single(eq("pd.color"@), text_arg(q.color), c);
    lemma_bound_single(Cond::Compare("p.purchase_price"@, " >= "@), number_arg(q.price_min), c);
    lemma_bound_single(Cond::Compare("p.purchase_price"@, " <= "@), number_arg(q.price_max), c);
    lemma_bound_concat(p1, p2, c);
    lemma_bound_concat(p1 + p2, p3, c);
    lemma_bound_concat(p1 + p2 + p3, p4, c);
    lemma_bound_concat(p1 + p2 + p3 + p4, p5, c);
    lemma_bound_concat(p1 + p2 + p3 + p4 + p5, p6, c);
    lemma_bound_concat(p1 + p2 + p3 + p4 + p5 + p6, p7, c);
    lemma_bound_concat(p1 + p2 + p3 + p4 + p5 + p6 + p7, p8, c);
    lemma_bound_concat(p1 + p2 + p3 + p4 + p5 + p6 + p7 + p8, p9, c);
}

/// Every filter of the filter-options summary binds its own query field: the
/// condition on a column is present exactly when the query gives that field,
/// and the value bound to it is that field's value.
pub proof fn lemma_filter_options_bind_own_fields(q: FilterOptionsQuery)
    ensures
        bound_value(filter_options_filters(q), eq("p.brand_id"@)) == int_arg(q.brand_id),
        bound_value(filter_options_filters(q), eq("p.category_id"@)) == int_arg(q.category_id),
        bound_value(filter_options_filters(q), eq("c.product_type"@)) == text_arg(q.product_type),
        bound_value(filter_options_filters(q), eq("c.gender"@)) == text_arg(q.gender),
        bound_value(filter_options_filters(q), eq("p.status"@)) == text_arg(q.status),
        bound_value(filter_options_filters(q), eq("pd.condition"@)) == text_arg(q.condition),
        bound_value(filter_options_filters(q), eq("pd.color"@)) == text_arg(q.color),
        bound_value(filter_options_filters(q), Cond::Compare("p.purchase_price"@, " >= "@)) == number_arg(q.price_min),
        bound_value(filter_options_filters(q), Cond::Compare("p.purchase_price"@, " <= "@)) == number_arg(q.price_max),
{
    reveal_strlit("p.brand_id");
    reveal_strlit("p.category_id");
    reveal_strlit("c.product_type");
    reveal_strlit("c.gender");
    reveal_strlit("p.status");
    reveal_strlit("pd.condition");
    reveal_strlit("pd.color");
    reveal_strlit("p.purchase_price");
    reveal_strlit(" = ");
    reveal_strlit(" >= ");
    reveal_strlit(" <= ");
    assert("p.brand_id"@.len() == 10 && "p.category_id"@.len() == 13 && "c.product_type"@.len() == 14);
    assert("c.gender"@.len() == 8 && "p.status"@.len() == 8 && "pd.condition"@.len() == 12);
    assert("pd.color"@.len() == 8 && "p.purchase_price"@.len() == 16);
    assert(" >= "@.len() == 4 && " <= "@.len() == 4 && " = "@.len() == 3);
    assert("c.gender"@[0] == 'c' && "p.status"@[1] == '.' && "pd.color"@[1] == 'd');
    assert(" >= "@[1] == '>' && " <= "@[1] == '<');
    lemma_options_lookup(q, eq("p.brand_id"@));
    lemma_options_lookup(q, eq("p.category_id"@));
    lemma_options_lookup(q, eq("c.product_type"@));
    lemma_options_lookup(q, eq("c.gender"@));
    lemma_options_lookup(q, eq("p.status"@));
    lemma_options_lookup(q, eq("pd.condition"@));
    lemma_options_lookup(q, eq("pd.color"@));
    lemma_options_lookup(q, Cond::Compare("p.purchase_price"@, " >= "@));
    lemma_options_lookup(q, Cond::Compare("p.purchase_price"@, " <= "@));
}

/// What the filters of the available-sizes summary answer for `c`, in order.
pub open spec fn sizes_lookup(q: AvailableSizesQuery, size_group: Seq<char>, c: Cond) -> Option<SqlArgView> {
    let a = or_else(single(eq("c.size_group"@), Some(SqlArgView::Text(size_group)), c), single(eq("p.category_id"@), int_arg(q.category_id), c));
    let b = or_else(single(eq("p.brand_id"@), int_arg(q.brand_id), c), single(eq("c.gender"@), text_arg(q.gender), c));
    let d = or_else(single(eq("p.status"@), text_arg(q.status), c), single(eq("pd.condition"@), text_arg(q.condition), c));
    let e = or_else(single(eq("pd.color"@), text_arg(q.color), c), single(eq("pd.size_system"@), text_arg(q.size_system), c));
    let f = or_else(single(Cond::Compare("p.purchase_price"@, " >= "@), number_arg(q.price_min), c),
        single(Cond::Compare("p.purchase_price"@, " <= "@), number_arg(q.price_max), c));
    or_else(or_else(or_else(a, b), or_else(d, e)), f)
}

proof fn lemma_sizes_lookup(q: AvailableSizesQuery, size_group: Seq<char>, systems: Seq<String>, c: Cond)
    requires
        c is Compare,
    ensures
        bound_value(available_sizes_filters(q, size_group, systems), c) == sizes_lookup(q, size_group, c),
{
    let p0 = seq![(eq("c.size_group"@), SqlArgView::Text(size_group))];
    assert(p0 == opt_filter(eq("c.size_group"@), Some(SqlArgView::Text(size_group))));
    let p1 = opt_filter(eq("p.category_id"@), int_arg(q.category_id));
    let p2 = opt_filter(eq("p.brand_id"@), int_arg(q.brand_id));
    let p3 = opt_filter(eq("c.gender"@), text_arg(q.gender));
    let p4 = opt_filter(eq("p.status"@), text_arg(q.status));
    let p5 = opt_filter(eq("pd.condition"@), text_arg(q.condition));
    let p6 = opt_filter(eq("pd.color"@), text_arg(q.color));
    let p7 = opt_filter(eq("pd.size_system"@), text_arg(q.size_system));
    let ps = systems_filter(systems);
    let p8 = opt_filter(Cond::Compare("p.purchase_price"@, " >= "@), number_arg(q.price_min));
    let p9 = opt_filter(Cond::Compare("p.purchase_price"@, " <= "@), number_arg(q.price_max));
    lemma_bound_single(eq("c.size_group"@), Some(SqlArgView::Text(size_group)), c);
    lemma_bound_single(eq("p.category_id"@), int_arg(q.category_id), c);
    lemma_bound_single(eq("p.brand_id"@), int_arg(q.brand_id), c);
    lemma_bound_single(eq("c.gender"@), text_arg(q.gender), c);
    lemma_bound_single(eq("p.status"@), text_arg(q.status), c);
    lemma_bound_single(eq("pd.condition"@), text_arg(q.condition), c);
    lemma_bound_single(eq("pd.color"@), text_arg(q.color), c);
    lemma_bound_single(eq("pd.size_system"@), text_arg(q.size_system), c);
    lemma_bound_single(Cond::Compare("p.purchase_price"@, " >= "@), number_arg(q.price_min), c);
    lemma_bound_single(Cond::Compare("p.purchase_price"@, " <= "@), number_arg(q.price_max), c);
    if ps.len() > 0 {
        assert(ps.drop_first() =~= Seq::<Filter>::empty());
        assert(bound_value(ps.drop_first(), c) is None);
        assert(ps[0].0 != c);
    }
    assert(bound_value(ps, c) is None);
    lemma_bound_concat(p0, p1, c);
    lemma_bound_concat(p0 + p1, p2, c);
    lemma_bound_concat(p0 + p1 + p2, p3, c);
    lemma_bound_concat(p0 + p1 + p2 + p3, p4, c);
    lemma_bound_concat(p0 + p1 + p2 + p3 + p4, p5, c);
    lemma_bound_concat(p0 + p1 + p2 + p3 + p4 + p5, p6, c);
    lemma_bound_concat(p0 + p1 + p2 + p3 + p4 + p5 + p6, p7, c);
    lemma_bound_concat(p0 + p1 + p2 + p3 + p4 + p5 + p6 + p7, ps, c);
    lemma_bound_concat(p0 + p1 + p2 + p3 + p4 + p5 + p6 + p7 + ps, p8, c);
    lemma_bound_concat(p0 + p1 + p2 + p3 + p4 + p5 + p6 + p7 + ps + p8, p9, c);
}

/// Every filter of the available-sizes summary binds its own value: the
/// resolved size group always, each other column exactly when the query
/// gives it, with that field's value.
pub proof fn lemma_available_sizes_bind_own_fields(q: AvailableSizesQuery, size_group: Seq<char>, systems: Seq<String>)
    ensures
        bound_value(available_sizes_filters(q, size_group, systems), eq("c.size_group"@)) == Some(SqlArgView::Text(size_group)),
        bound_value(available_sizes_filters(q, size_group, systems), eq("p.category_id"@)) == int_arg(q.category_id),
        bound_value(available_sizes_filters(q, size_group, systems), eq("p.brand_id"@)) == int_arg(q.brand_id),
        bound_value(available_sizes_filters(q, size_group, systems), eq("c.gender"@)) == text_arg(q.gender),
        bound_value(available_sizes_filters(q, size_group, systems), eq("p.status"@)) == text_arg(q.status),
        bound_value(available_sizes_filters(q, size_group, systems), eq("pd.condition"@)) == text_arg(q.condition),
        bound_value(available_sizes_filters(q, size_group, systems), eq("pd.color"@)) == text_arg(q.color),
        bound_value(available_sizes_filters(q, size_group, systems), eq("pd.size_system"@)) == text_arg(q.size_system),
        bound_value(available_sizes_filters(q, size_group, systems), Cond::Compare("p.purchase_price"@, " >= "@))
            == number_arg(q.price_min),
        bound_value(available_sizes_filters(q, size_group, systems), Cond::Compare("p.purchase_price"@, " <= "@))
            == number_arg(q.price_max),
{
    reveal_strlit("c.size_group");
    reveal_strlit("p.category_id");
    reveal_strlit("p.brand_id");
    reveal_strlit("c.gender");
    reveal_strlit("p.status");
    reveal_strlit("pd.condition");
    reveal_strlit("pd.color");
    reveal_strlit("pd.size_system");
    reveal_strlit("p.purchase_price");
    reveal_strlit(" = ");
    reveal_strlit(" >= ");
    reveal_strlit(" <= ");
    assert("c.size_group"@.len() == 12 && "p.category_id"@.len() == 13 && "p.brand_id"@.len() == 10);
    assert("c.gender"@.len() == 8 && "p.status"@.len() == 8 && "pd.condition"@.len() == 12);
    assert("pd.color"@.len() == 8 && "pd.size_system"@.len() == 14 && "p.purchase_price"@.len() == 16);
    assert(" >= "@.len() == 4 && " <= "@.len() == 4 && " = "@.len() == 3);
    assert("c.gender"@[0] == 'c' && "p.status"@[1] == '.' && "pd.color"@[1] == 'd');
    assert("c.size_group"@[0] == 'c' && "pd.condition"@[0] == 'p');
    assert(" >= "@[1] == '>' && " <= "@[1] == '<');
    lemma_sizes_lookup(q, size_group, systems, eq("c.size_group"@));
    lemma_sizes_lookup(q, size_group, systems, eq("p.category_id"@));
    lemma_sizes_lookup(q, size_group, systems, eq("p.brand_id"@));
    lemma_sizes_lookup(q, size_group, systems, eq("c.gender"@));
    lemma_sizes_lookup(q, size_group, systems, eq("p.status"@));
    lemma_sizes_lookup(q, size_group, systems, eq("pd.condition"@));
    lemma_sizes_lookup(q, size_group, systems, eq("pd.color"@));
    lemma_sizes_lookup(q, size_group, systems, eq("pd.size_system"@));
    lemma_sizes_lookup(q, size_group, systems, Cond::Compare("p.purchase_price"@, " >= "@));
    lemma_sizes_lookup(q, size_group, systems, Cond::Compare("p.purchase_price"@, " <= "@));
}

} // verus!
