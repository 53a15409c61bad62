use crate::bom::json::decimal;
use crate::bom::json::decimal_text;
use crate::bom::json::is_plain;
use crate::bom::json::joined;
use crate::bom::json::string_literal;
use crate::bom::json::object;
use crate::bom::json::object_text;
use crate::bom::json::quote;
use vstd::prelude::*;

verus! {

/// One query of a batch sent to the catalog's match endpoint.
#[derive(Clone, Debug, PartialEq, Eq)]
pub struct PartsMatchQuery {
    /// Free-form keyword query.
    pub q: Option<String>,
    /// MPN search filter.
    pub mpn: Option<String>,
    /// Brand search filter.
    pub brand: Option<String>,
    /// SKU search filter.
    pub sku: Option<String>,
    /// Seller search filter.
    pub seller: Option<String>,
    /// MPN or SKU search filter.
    pub mpn_or_sku: Option<String>,
    /// Ordinal position of first returned item.
    pub start: u32,
    /// Maximum number of items to return. The catalog accepts at most 20,
    /// and at most 100 for `start` and `limit` together.
    pub limit: u32,
    /// Arbitrary string for identifying results.
    pub reference: Option<String>,
}

/// A query as contracts see it: each text by its characters.
pub struct PartsMatchQueryView {
    pub q: Option<Seq<char>>,
    pub mpn: Option<Seq<char>>,
    pub brand: Option<Seq<char>>,
    pub sku: Option<Seq<char>>,
    pub seller: Option<Seq<char>>,
    pub mpn_or_sku: Option<Seq<char>>,
    pub start: u32,
    pub limit: u32,
    pub reference: Option<Seq<char>>,
}

/// The value of a member of the JSON object that stands for a query.
pub enum FieldView {
    Text(Seq<char>),
    Number(u32),
}

/// The member for a filter of a query: one member where the filter is set, none where
/// it is not.
pub open spec fn optional(key: Seq<char>, value: Option<Seq<char>>) -> Seq<(Seq<char>, FieldView)> {
    match value {
        Some(text) => seq![(key, FieldView::Text(text))],
        None => Seq::empty(),
    }
}

/// A member as JSON text: the key as a string literal, a colon, and the value as a
/// string literal or as a number.
pub open spec fn member_text(member: (Seq<char>, FieldView)) -> Seq<char> {
    string_literal(member.0) + seq![':'] + match member.1 {
        FieldView::Text(text) => string_literal(text),
        FieldView::Number(n) => decimal(n as nat),
    }
}

/// The members `fields` as JSON text, each for itself.
pub open spec fn member_texts(fields: Seq<(Seq<char>, FieldView)>) -> Seq<Seq<char>> {
    Seq::new(fields.len(), |i: int| member_text(fields[i]))
}

/// The value of the first member of `fields` that has the key `key`.
pub open spec fn member(fields: Seq<(Seq<char>, FieldView)>, key: Seq<char>) -> Option<FieldView>
    decreases fields.len(),
{
    if fields.len() == 0 {
        None
    } else if fields[0].0 == key {
        Some(fields[0].1)
    } else {
        member(fields.drop_first(), key)
    }
}

/// The filter that `fields` hold under `key`: the text of the member, or none where
/// there is no such member.
pub open spec fn filter_of(fields: Seq<(Seq<char>, FieldView)>, key: Seq<char>) -> Option<Seq<char>> {
    match member(fields, key) {
        Some(FieldView::Text(text)) => Some(text),
        _ => None,
    }
}

/// Whether `fields` hold a number under `key`.
pub open spec fn holds_number(fields: Seq<(Seq<char>, FieldView)>, key: Seq<char>) -> bool {
    member(fields, key) matches Some(FieldView::Number(_))
}

impl View for PartsMatchQuery {
    type V = PartsMatchQueryView;

    open spec fn view(&self) -> PartsMatchQueryView {
        PartsMatchQueryView {
            q: self.q.deep_view(),
            mpn: self.mpn.deep_view(),
            brand: self.brand.deep_view(),
            sku: self.sku.deep_view(),
            seller: self.seller.deep_view(),
            mpn_or_sku: self.mpn_or_sku.deep_view(),
            start: self.start,
            limit: self.limit,
            reference: self.reference.deep_view(),
        }
    }
}

impl PartsMatchQueryView {
    /// The query that filters on nothing: it starts at the first item and asks for ten.
    pub open spec fn blank() -> PartsMatchQueryView {
        PartsMatchQueryView {
            q: None,
            mpn: None,
            brand: None,
            sku: None,
            seller: None,
            mpn_or_sku: None,
            start: 0,
            limit: 10,
            reference: None,
        }
    }

    /// The members of the JSON object that stands for the query, in the order in which
    /// they are written. A filter that is not set has no member; `start` and `limit`
    /// always have one.
    pub open spec fn fields(self) -> Seq<(Seq<char>, FieldView)> {
        optional("q"@, self.q) + optional("mpn"@, self.mpn) + optional("brand"@, self.brand)
            + optional("sku"@, self.sku) + optional("seller"@, self.seller) + optional(
            "mpn_or_sku"@,
            self.mpn_or_sku,
        ) + seq![("start"@, FieldView::Number(self.start))] + seq![
            ("limit"@, FieldView::Number(self.limit)),
        ] + optional("reference"@, self.reference)
    }

    /// The query that the members `fields` of a JSON object stand for: each filter is
    /// what its member says, and not set where it has no member. There is no such query
    /// where `start` or `limit` is not there as a number, or where the member of a
    /// filter holds a number.
    pub open spec fn of_fields(fields: Seq<(Seq<char>, FieldView)>) -> Option<PartsMatchQueryView> {
        if holds_number(fields, "start"@) && holds_number(fields, "limit"@) && !holds_number(
            fields,
            "q"@,
        ) && !holds_number(fields, "mpn"@) && !holds_number(fields, "brand"@) && !holds_number(
            fields,
            "sku"@,
        ) && !holds_number(fields, "seller"@) && !holds_number(fields, "mpn_or_sku"@)
            && !holds_number(fields, "reference"@) {
            Some(
                PartsMatchQueryView {
                    q: filter_of(fields, "q"@),
                    mpn: filter_of(fields, "mpn"@),
                    brand: filter_of(fields, "brand"@),
                    sku: filter_of(fields, "sku"@),
                    seller: filter_of(fields, "seller"@),
                    mpn_or_sku: filter_of(fields, "mpn_or_sku"@),
                    start: member(fields, "start"@)->0->Number_0,
                    limit: member(fields, "limit"@)->0->Number_0,
                    reference: filter_of(fields, "reference"@),
                },
            )
        } else {
            None
        }
    }

    /// The query as JSON text: the object of its members, without white space.
    pub open spec fn json(self) -> Seq<char> {
        object_text(member_texts(self.fields()))
    }

    /// Whether the catalog accepts the window of the query: at most 20 items, ending
    /// at or before the hundredth.
    pub open spec fn within_limits(self) -> bool {
        self.limit <= 20 && self.start + self.limit <= 100
    }
}

/// The first member with a given key in two lists of members in a row is the first one
/// in the first list, and where that has none, the first one in the second list.
proof fn lemma_member_of_row(
    first: Seq<(Seq<char>, FieldView)>,
    second: Seq<(Seq<char>, FieldView)>,
    key: Seq<char>,
)
    ensures
        member(first + second, key) == if member(first, key) is Some {
            member(first, key)
        } else {
            member(second, key)
        },
    decreases first.len(),
{
    if first.len() == 0 {
        assert(first + second =~= second);
    } else {
        assert((first + second).drop_first() =~= first.drop_first() + second);
        lemma_member_of_row(first.drop_first(), second, key);
    }
}

/// The nine keys of the members of a query are nine different texts.
proof fn lemma_keys_differ()
    ensures
        "q"@.len() == 1,
        "mpn"@.len() == 3 && "mpn"@[0] == 'm',
        "sku"@.len() == 3 && "sku"@[0] == 's',
        "brand"@.len() == 5 && "brand"@[0] == 'b',
        "start"@.len() == 5 && "start"@[0] == 's',
        "limit"@.len() == 5 && "limit"@[0] == 'l',
        "seller"@.len() == 6,
        "mpn_or_sku"@.len() == 10,
        "reference"@.len() == 9,
{
    reveal_strlit("q");
    reveal_strlit("mpn");
    reveal_strlit("brand");
    reveal_strlit("sku");
    reveal_strlit("seller");
    reveal_strlit("mpn_or_sku");
    reveal_strlit("start");
    reveal_strlit("limit");
    reveal_strlit("reference");
}

/// What the members of a query hold under `key`, read off the query.
pub open spec fn member_of_query(query: PartsMatchQueryView, key: Seq<char>) -> Option<FieldView> {
    if key == "q"@ {
        text_member(query.q)
    } else if key == "mpn"@ {
        text_member(query.mpn)
    } else if key == "brand"@ {
        text_member(query.brand)
    } else if key == "sku"@ {
        text_member(query.sku)
    } else if key == "seller"@ {
        text_member(query.seller)
    } else if key == "mpn_or_sku"@ {
        text_member(query.mpn_or_sku)
    } else if key == "start"@ {
        Some(FieldView::Number(query.start))
    } else if key == "limit"@ {
        Some(FieldView::Number(query.limit))
    } else if key == "reference"@ {
        text_member(query.reference)
    } else {
        None
    }
}

/// The value of the member for a filter: the text where the filter is set.
pub open spec fn text_member(value: Option<Seq<char>>) -> Option<FieldView> {
    match value {
        Some(text) => Some(FieldView::Text(text)),
        None => None,
    }
}

/// The members of a query hold, under each key, what the query says, and nothing
/// else: a filter that is not set has no member, a filter that is set has the member
/// with its text, and `start` and `limit` have theirs.
pub proof fn lemma_members_of_query(query: PartsMatchQueryView, key: Seq<char>)
    ensures
        member(query.fields(), key) == member_of_query(query, key),
{
    lemma_keys_differ();
    let f1 = optional("q"@, query.q);
    let f2 = f1 + optional("mpn"@, query.mpn);
    let f3 = f2 + optional("brand"@, query.brand);
    let f4 = f3 + optional("sku"@, query.sku);
    let f5 = f4 + optional("seller"@, query.seller);
    let f6 = f5 + optional("mpn_or_sku"@, query.mpn_or_sku);
    let f7 = f6 + seq![("start"@, FieldView::Number(query.start))];
    let f8 = f7 + seq![("limit"@, FieldView::Number(query.limit))];
    let f9 = f8 + optional("reference"@, query.reference);
    assert(f9 == query.fields());
    lemma_member_of_row(f1, optional("mpn"@, query.mpn), key);
    lemma_member_of_row(f2, optional("brand"@, query.brand), key);
    lemma_member_of_row(f3, optional("sku"@, query.sku), key);
    lemma_member_of_row(f4, optional("seller"@, query.seller), key);
    lemma_member_of_row(f5, optional("mpn_or_sku"@, query.mpn_or_sku), key);
    lemma_member_of_row(f6, seq![("start"@, FieldView::Number(query.start))], key);
    lemma_member_of_row(f7, seq![("limit"@, FieldView::Number(query.limit))], key);
    lemma_member_of_row(f8, optional("reference"@, query.reference), key);
    lemma_member_of_one(("start"@, FieldView::Number(query.start)), key);
    lemma_member_of_one(("limit"@, FieldView::Number(query.limit)), key);
    lemma_member_of_optional("q"@, query.q, key);
    lemma_member_of_optional("mpn"@, query.mpn, key);
    lemma_member_of_optional("brand"@, query.brand, key);
    lemma_member_of_optional("sku"@, query.sku, key);
    lemma_member_of_optional("seller"@, query.seller, key);
    lemma_member_of_optional("mpn_or_sku"@, query.mpn_or_sku, key);
    lemma_member_of_optional("reference"@, query.reference, key);
}

/// A list of one member holds that member under its key, and nothing else.
proof fn lemma_member_of_one(only: (Seq<char>, FieldView), key: Seq<char>)
    ensures
        member(seq![only], key) == if only.0 == key {
            Some(only.1)
        } else {
            None
        },
{
    reveal_with_fuel(member, 2);
    assert(seq![only].drop_first() =~= Seq::<(Seq<char>, FieldView)>::empty());
}

/// The member for a filter is there under the key of the filter where the filter is
/// set, and nothing else is.
proof fn lemma_member_of_optional(name: Seq<char>, value: Option<Seq<char>>, key: Seq<char>)
    ensures
        member(optional(name, value), key) == if name == key {
            text_member(value)
        } else {
            None
        },
{
    if let Some(text) = value {
        lemma_member_of_one((name, FieldView::Text(text)), key);
    }
}

/// The keys of the members of a query are plain texts: a JSON string literal holds each
/// as it is.
pub proof fn lemma_keys_are_plain()
    ensures
        is_plain("q"@),
        is_plain("mpn"@),
        is_plain("brand"@),
        is_plain("sku"@),
        is_plain("seller"@),
        is_plain("mpn_or_sku"@),
        is_plain("start"@),
        is_plain("limit"@),
        is_plain("reference"@),
{
    reveal_strlit("q");
    reveal_strlit("mpn");
    reveal_strlit("brand");
    reveal_strlit("sku");
    reveal_strlit("seller");
    reveal_strlit("mpn_or_sku");
    reveal_strlit("start");
    reveal_strlit("limit");
    reveal_strlit("reference");
}

/// The query that filters on nothing is written as the object of `start` and `limit`
/// alone.
pub proof fn lemma_json_of_blank_query()
    ensures
        PartsMatchQueryView::blank().json() == "{\"start\":0,\"limit\":10}"@,
{
    let query = PartsMatchQueryView::blank();
    let start = ("start"@, FieldView::Number(0));
    let limit = ("limit"@, FieldView::Number(10));
    lemma_keys_are_plain();
    reveal_strlit("start");
    reveal_strlit("limit");
    reveal_strlit("{\"start\":0,\"limit\":10}");
    reveal_with_fuel(decimal, 2);
    reveal_with_fuel(joined, 3);
    assert(query.fields() =~= seq![start, limit]);
    let texts = member_texts(query.fields());
    assert(texts =~= seq![member_text(start), member_text(limit)]);
    assert(texts.drop_last() =~= seq![member_text(start)]);
    assert(member_text(start) =~= seq!['"', 's', 't', 'a', 'r', 't', '"', ':', '0']);
    assert(member_text(limit) =~= seq!['"', 'l', 'i', 'm', 'i', 't', '"', ':', '1', '0']);
    assert(joined(texts, seq![',']) =~= member_text(start) + seq![','] + member_text(limit));
    assert(query.json() =~= "{\"start\":0,\"limit\":10}"@);
}

/// Reading the members that a query is written as gives the query back: nothing of a
/// query is lost in its JSON object, and nothing is added to it.
pub proof fn lemma_fields_round_trip(query: PartsMatchQueryView)
    ensures
        PartsMatchQueryView::of_fields(query.fields()) == Some(query),
{
    lemma_members_of_query(query, "q"@);
    lemma_members_of_query(query, "mpn"@);
    lemma_members_of_query(query, "brand"@);
    lemma_members_of_query(query, "sku"@);
    lemma_members_of_query(query, "seller"@);
    lemma_members_of_query(query, "mpn_or_sku"@);
    lemma_members_of_query(query, "start"@);
    lemma_members_of_query(query, "limit"@);
    lemma_members_of_query(query, "reference"@);
    lemma_keys_differ();
    assert(PartsMatchQueryView::of_fields(query.fields())->0 =~= query);
}

impl PartsMatchQuery {
    /// The query that filters on nothing.
    pub fn new() -> (query: Self)
        ensures
            query@ == PartsMatchQueryView::blank(),
    {
        PartsMatchQuery {
            q: None,
            mpn: None,
            brand: None,
            sku: None,
            seller: None,
            mpn_or_sku: None,
            start: 0,
            limit: 10,
            reference: None,
        }
    }

    /// Consumes itself to set `mpn` field.
    pub fn with_mpn(self, mpn: String) -> (query: PartsMatchQuery)
        ensures
            query@ == (PartsMatchQueryView { mpn: Some(mpn@), ..self@ }),
            query.mpn == Some(mpn),
    {
        let mut query = self;
        query.mpn = Some(mpn);
        query
    }

    /// Consumes itself to set `limit` field.
    pub fn with_limit(self, limit: u32) -> (query: Self)
        ensures
            query@ == (PartsMatchQueryView { limit: limit, ..self@ }),
    {
        let mut query = self;
        query.limit = limit;
        query
    }

    /// Writes the query as JSON text.
    pub fn to_json(&self) -> (text: String)
        ensures
            text@ == self@.json(),
    {
        let mut members: Vec<String> = Vec::new();
        add_text(&mut members, "q", &self.q);
        add_text(&mut members, "mpn", &self.mpn);
        add_text(&mut members, "brand", &self.brand);
        add_text(&mut members, "sku", &self.sku);
        add_text(&mut members, "seller", &self.seller);
        add_text(&mut members, "mpn_or_sku", &self.mpn_or_sku);
        add_number(&mut members, "start", self.start);
        add_number(&mut members, "limit", self.limit);
        add_text(&mut members, "reference", &self.reference);
        assert(members.deep_view() =~= member_texts(self@.fields()));
        object(&members)
    }

    /// Tells whether the catalog accepts the window of the query.
    pub fn within_limits(&self) -> (accepted: bool)
        ensures
            accepted == self@.within_limits(),
    {
        self.limit <= 20 && self.start <= 100 - self.limit
    }
}

/// Adds the member for a filter to `members`, where the filter is set.
fn add_text(members: &mut Vec<String>, key: &str, value: &Option<String>)
    ensures
        final(members).deep_view() == old(members).deep_view() + member_texts(
            optional(key@, value.deep_view()),
        ),
{
    match value {
        Some(text) => {
            proof {
                reveal_strlit(":");
            }
            let mut member = quote(key);
            member.append(":");
            member.append(quote(text.as_str()).as_str());
            assert(member@ =~= member_text((key@, FieldView::Text(text@))));
            members.push(member);
            assert(members.deep_view() =~= old(members).deep_view() + member_texts(
                optional(key@, value.deep_view()),
            ));
        },
        None => {
            assert(members.deep_view() =~= old(members).deep_view() + member_texts(
                optional(key@, value.deep_view()),
            ));
        },
    }
}

/// Adds the member for a number to `members`.
fn add_number(members: &mut Vec<String>, key: &str, value: u32)
    ensures
        final(members).deep_view() == old(members).deep_view() + member_texts(
            seq![(key@, FieldView::Number(value))],
        ),
{
    proof {
        reveal_strlit(":");
    }
    let mut member = quote(key);
    member.append(":");
    member.append(decimal_text(value).as_str());
    assert(member@ =~= member_text((key@, FieldView::Number(value))));
    members.push(member);
    assert(members.deep_view() =~= old(members).deep_view() + member_texts(
        seq![(key@, FieldView::Number(value))],
    ));
}

} // verus!
