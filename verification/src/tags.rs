//! Which writes keep a product's tag links in step with a request: the
//! style tags, vibe tags and seasons each live in a link table of their own.

use vstd::prelude::*;
use vstd::string::*;

verus! {

/// One of the three link tables between products and tags.
#[derive(Clone, Copy, Debug, PartialEq, Eq, Structural)]
pub enum TagTable {
    Style,
    Vibe,
    Season,
}

impl TagTable {
    pub open spec fn spec_clear_sql(self) -> Seq<char> {
        match self {
            TagTable::Style => "DELETE FROM product_style_tag WHERE product_id = $1"@,
            TagTable::Vibe => "DELETE FROM product_vibe_tag WHERE product_id = $1"@,
            TagTable::Season => "DELETE FROM product_season WHERE product_id = $1"@,
        }
    }

    pub open spec fn spec_link_sql(self) -> Seq<char> {
        match self {
            TagTable::Style =>
                "INSERT INTO product_style_tag (product_id, style_tag_id) SELECT $1, UNNEST($2::int[])"@,
            TagTable::Vibe =>
                "INSERT INTO product_vibe_tag (product_id, vibe_tag_id) SELECT $1, UNNEST($2::int[])"@,
            TagTable::Season =>
                "INSERT INTO product_season (product_id, season_id) SELECT $1, UNNEST($2::int[])"@,
        }
    }

    /// The statement that removes every link of product `$1` from the table.
    pub fn clear_sql(self) -> (s: &'static str)
        ensures
            s@ == self.spec_clear_sql(),
    {
        match self {
            TagTable::Style => "DELETE FROM product_style_tag WHERE product_id = $1",
            TagTable::Vibe => "DELETE FROM product_vibe_tag WHERE product_id = $1",
            TagTable::Season => "DELETE FROM product_season WHERE product_id = $1",
        }
    }

    /// The statement that links product `$1` to each tag id of the array `$2`.
    pub fn link_sql(self) -> (s: &'static str)
        ensures
            s@ == self.spec_link_sql(),
    {
        match self {
            TagTable::Style =>
                "INSERT INTO product_style_tag (product_id, style_tag_id) SELECT $1, UNNEST($2::int[])",
            TagTable::Vibe =>
                "INSERT INTO product_vibe_tag (product_id, vibe_tag_id) SELECT $1, UNNEST($2::int[])",
            TagTable::Season =>
                "INSERT INTO product_season (product_id, season_id) SELECT $1, UNNEST($2::int[])",
        }
    }
}

/// A write on a link table: drop the product's links, or link the product to
/// the ids that the request gives for that table.
#[derive(Clone, Copy, Debug, PartialEq, Eq, Structural)]
pub enum TagWrite {
    Clear(TagTable),
    Link(TagTable),
}

/// Links for `ids`, written only when there is at least one.
pub open spec fn link_writes(table: TagTable, ids: Seq<i32>) -> Seq<TagWrite> {
    if ids.len() == 0 { Seq::empty() } else { seq![TagWrite::Link(table)] }
}

/// The writes of a new product: each non-empty list is linked, in the order
/// style tags, vibe tags, seasons.
pub open spec fn insert_plan(style: Seq<i32>, vibe: Seq<i32>, season: Seq<i32>) -> Seq<TagWrite> {
    link_writes(TagTable::Style, style) + link_writes(TagTable::Vibe, vibe) + link_writes(
        TagTable::Season,
        season,
    )
}

/// The writes of an update for one table: a list that the request leaves out
/// keeps the old links; a given list replaces them (an empty one removes all).
pub open spec fn replace_writes(table: TagTable, ids: Option<Seq<i32>>) -> Seq<TagWrite> {
    match ids {
        None => Seq::empty(),
        Some(s) => seq![TagWrite::Clear(table)] + link_writes(table, s),
    }
}

pub open spec fn opt_ids(ids: Option<&Vec<i32>>) -> Option<Seq<i32>> {
    match ids {
        None => None,
        Some(v) => Some(v@),
    }
}

/// The writes of an update, in the order style tags, vibe tags, seasons.
pub open spec fn replace_plan(
    style: Option<Seq<i32>>,
    vibe: Option<Seq<i32>>,
    season: Option<Seq<i32>>,
) -> Seq<TagWrite> {
    replace_writes(TagTable::Style, style) + replace_writes(TagTable::Vibe, vibe) + replace_writes(
        TagTable::Season,
        season,
    )
}

fn push_link(plan: &mut Vec<TagWrite>, table: TagTable, ids: &Vec<i32>)
    ensures
        final(plan)@ == old(plan)@ + link_writes(table, ids@),
{
    if ids.len() > 0 {
        plan.push(TagWrite::Link(table));
    } else {
        assert(old(plan)@ + Seq::<TagWrite>::empty() =~= old(plan)@);
    }
    proof {
        if ids.len() > 0 {
            assert(final(plan)@ =~= old(plan)@ + seq![TagWrite::Link(table)]);
        }
    }
}

fn push_replace(plan: &mut Vec<TagWrite>, table: TagTable, ids: Option<&Vec<i32>>)
    ensures
        final(plan)@ == old(plan)@ + replace_writes(table, opt_ids(ids)),
{
    match ids {
        None => {
            assert(old(plan)@ + Seq::<TagWrite>::empty() =~= old(plan)@);
        },
        Some(v) => {
            let ghost before = plan@;
            plan.push(TagWrite::Clear(table));
            let ghost mid = plan@;
            push_link(plan, table, v);
            assert(mid =~= before + seq![TagWrite::Clear(table)]);
            assert(plan@ =~= before + (seq![TagWrite::Clear(table)] + link_writes(table, v@)));
        },
    }
}

/// The link writes that creating a product with these tag lists takes.
pub fn insert_tag_writes(style: &Vec<i32>, vibe: &Vec<i32>, season: &Vec<i32>) -> (plan: Vec<TagWrite>)
    ensures
        plan@ == insert_plan(style@, vibe@, season@),
{
    let mut plan: Vec<TagWrite> = Vec::new();
    push_link(&mut plan, TagTable::Style, style);
    push_link(&mut plan, TagTable::Vibe, vibe);
    push_link(&mut plan, TagTable::Season, season);
    assert(plan@ =~= Seq::<TagWrite>::empty() + link_writes(TagTable::Style, style@) + link_writes(
        TagTable::Vibe,
        vibe@,
    ) + link_writes(TagTable::Season, season@));
    plan
}

/// The writes that updating a product's tag lists takes; a list left out
/// (`None`) is not touched.
pub fn replace_tag_writes(
    style: Option<&Vec<i32>>,
    vibe: Option<&Vec<i32>>,
    season: Option<&Vec<i32>>,
) -> (plan: Vec<TagWrite>)
    ensures
        plan@ == replace_plan(opt_ids(style), opt_ids(vibe), opt_ids(season)),
{
    let mut plan: Vec<TagWrite> = Vec::new();
    push_replace(&mut plan, TagTable::Style, style);
    push_replace(&mut plan, TagTable::Vibe, vibe);
    push_replace(&mut plan, TagTable::Season, season);
    assert(plan@ =~= Seq::<TagWrite>::empty() + replace_writes(TagTable::Style, opt_ids(style))
        + replace_writes(TagTable::Vibe, opt_ids(vibe)) + replace_writes(
        TagTable::Season,
        opt_ids(season),
    ));
    plan
}

/// Every table that an update names is cleared before anything is linked to
/// it, and a table that it leaves out is never written.
pub proof fn lemma_replace_clears_first(
    style: Option<Seq<i32>>,
    vibe: Option<Seq<i32>>,
    season: Option<Seq<i32>>,
    table: TagTable,
)
    ensures
        ({
            let plan = replace_plan(style, vibe, season);
            let given = match table {
                TagTable::Style => style,
                TagTable::Vibe => vibe,
                TagTable::Season => season,
            };
            &&& given is None ==> forall|i: int|
                0 <= i < plan.len() ==> #[trigger] plan[i] != TagWrite::Clear(table)
                    && plan[i] != TagWrite::Link(table)
            &&& given is Some ==> exists|i: int|
                0 <= i < plan.len() && #[trigger] plan[i] == TagWrite::Clear(table) && forall|j: int|
                    0 <= j < i ==> #[trigger] plan[j] != TagWrite::Link(table)
        }),
{
    let a = replace_writes(TagTable::Style, style);
    let b = replace_writes(TagTable::Vibe, vibe);
    let c = replace_writes(TagTable::Season, season);
    let plan = replace_plan(style, vibe, season);
    assert(plan == a + b + c);
    match table {
        TagTable::Style => {
            if style is Some {
                assert(plan[0] == TagWrite::Clear(TagTable::Style));
            }
        },
        TagTable::Vibe => {
            if vibe is Some {
                assert(plan[a.len() as int] == TagWrite::Clear(TagTable::Vibe));
            }
        },
        TagTable::Season => {
            if season is Some {
                assert(plan[(a.len() + b.len()) as int] == TagWrite::Clear(TagTable::Season));
            }
        },
    }
}

} // verus!
