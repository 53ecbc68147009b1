use vstd::prelude::*;
use crate::decimal::{
    decimal_text, is_decimal_digit, lemma_decimal_text_digits, lemma_parse_render, parse_u64_spec,
    render_u64, DecimalError,
};
use crate::farcaster::{
    BulkFetchCastsParams, BulkFetchCastsRawQuery, CastConversationOptions, CastIdentifierKind,
    Fid, GetCastConversationParams, GetNotificationsParams, GetNotificationsRawQuery,
    GetReactionsParams, GetReactionsRawQuery, GetUsersByFidsParams, GetUsersByFidsRawQuery,
    NotificationFilterKind, ReactionFilter,
};
use crate::case::lowercase;
use crate::text::{join_spec, join_texts, lemma_split_join, split_spec, texts_view};

verus! {

/// The separator between the items of a list in a query.
pub open spec fn list_separator() -> Seq<char> {
    ","@
}

/// The names of reaction filters, in order.
pub open spec fn reaction_filter_names(types: Seq<ReactionFilter>) -> Seq<Seq<char>> {
    types.map_values(|k: ReactionFilter| k.name())
}

/// The names of notification kinds, in order.
pub open spec fn notification_kind_names(kinds: Seq<NotificationFilterKind>) -> Seq<Seq<char>> {
    kinds.map_values(|k: NotificationFilterKind| k.name())
}

/// The decimal forms of Farcaster ids, in order.
pub open spec fn fid_texts(fids: Seq<Fid>) -> Seq<Seq<char>> {
    fids.map_values(|f: Fid| decimal_text(f as nat))
}

/// The query value of a list: its items joined by commas.
pub open spec fn query_list(items: Seq<Seq<char>>) -> Seq<char> {
    join_spec(items, list_separator())
}

/// A copy of an optional text.
fn copy_optional_text(text: &Option<String>) -> (copy: Option<String>)
    ensures
        copy == *text,
{
    match text {
        Some(t) => Some(t.clone()),
        None => None,
    }
}

/// The names of the filters, each as a text of its own.
fn reaction_filter_texts(types: &Vec<ReactionFilter>) -> (names: Vec<String>)
    ensures
        texts_view(names@) == reaction_filter_names(types@),
{
    let mut names: Vec<String> = Vec::new();
    let n = types.len();
    for i in 0..n
        invariant
            n == types@.len(),
            names@.len() == i,
            texts_view(names@) == reaction_filter_names(types@.take(i as int)),
    {
        let ghost before = names@;
        names.push(String::from_str(types[i].as_str()));
        assert(types@.take(i + 1) =~= types@.take(i as int).push(types@[i as int]));
        assert(names@ =~= before.push(names@[i as int]));
        assert(texts_view(names@) =~= texts_view(before).push(names@[i as int]@));
        assert(reaction_filter_names(types@.take(i + 1)) =~= reaction_filter_names(types@.take(i as int)).push(reaction_filter_names(types@.take(i + 1))[i as int]));
    }
    assert(types@.take(n as int) =~= types@);
    names
}

/// The names of the kinds, each as a text of its own.
fn notification_kind_texts(kinds: &Vec<NotificationFilterKind>) -> (names: Vec<String>)
    ensures
        texts_view(names@) == notification_kind_names(kinds@),
{
    let mut names: Vec<String> = Vec::new();
    let n = kinds.len();
    for i in 0..n
        invariant
            n == kinds@.len(),
            names@.len() == i,
            texts_view(names@) == notification_kind_names(kinds@.take(i as int)),
    {
        let ghost before = names@;
        names.push(String::from_str(kinds[i].as_str()));
        assert(kinds@.take(i + 1) =~= kinds@.take(i as int).push(kinds@[i as int]));
        assert(names@ =~= before.push(names@[i as int]));
        assert(texts_view(names@) =~= texts_view(before).push(names@[i as int]@));
        assert(notification_kind_names(kinds@.take(i + 1)) =~= notification_kind_names(kinds@.take(i as int)).push(notification_kind_names(kinds@.take(i + 1))[i as int]));
    }
    assert(kinds@.take(n as int) =~= kinds@);
    names
}

/// The decimal forms of the ids, each as a text of its own.
fn fid_decimal_texts(fids: &Vec<Fid>) -> (texts: Vec<String>)
    ensures
        texts_view(texts@) == fid_texts(fids@),
{
    let mut texts: Vec<String> = Vec::new();
    let n = fids.len();
    for i in 0..n
        invariant
            n == fids@.len(),
            texts@.len() == i,
            texts_view(texts@) == fid_texts(fids@.take(i as int)),
    {
        let ghost before = texts@;
        texts.push(render_u64(fids[i]));
        assert(fids@.take(i + 1) =~= fids@.take(i as int).push(fids@[i as int]));
        assert(texts@ =~= before.push(texts@[i as int]));
        assert(texts_view(texts@) =~= texts_view(before).push(texts@[i as int]@));
        assert(fid_texts(fids@.take(i + 1)) =~= fid_texts(fids@.take(i as int)).push(fid_texts(fids@.take(i + 1))[i as int]));
    }
    assert(fids@.take(n as int) =~= fids@);
    texts
}

impl<'a> From<&'a BulkFetchCastsParams> for BulkFetchCastsRawQuery {
    /// The query of a bulk fetch: the hashes joined by commas, the order kept.
    fn from(params: &'a BulkFetchCastsParams) -> (query: Self)
        ensures
            query.casts@ == query_list(texts_view(params.casts@)),
            query.sort_type == params.sort_type,
    {
        BulkFetchCastsRawQuery { casts: join_texts(&params.casts, ","), sort_type: params.sort_type }
    }
}

/// The query holds a `String`, which no spec function can build, so no
/// `from_spec` is claimed; the contract of `from` states the result.
impl<'a> vstd::std_specs::convert::FromSpecImpl<&'a BulkFetchCastsParams> for BulkFetchCastsRawQuery {
    open spec fn obeys_from_spec() -> bool {
        false
    }

    open spec fn from_spec(params: &'a BulkFetchCastsParams) -> Self {
        vstd::pervasive::arbitrary()
    }
}

impl<'a> From<&'a GetReactionsParams> for GetReactionsRawQuery {
    /// The query of a reactions request: the filter names joined by commas,
    /// the options copied.
    fn from(params: &'a GetReactionsParams) -> (query: Self)
        ensures
            query.hash@ == params.hash@,
            query.types@ == query_list(reaction_filter_names(params.types@)),
            query.viewer_fid == params.options.viewer_fid,
            query.limit == params.options.limit,
            query.cursor == params.options.cursor,
    {
        let names = reaction_filter_texts(&params.types);
        GetReactionsRawQuery {
            hash: params.hash.clone(),
            types: join_texts(&names, ","),
            viewer_fid: params.options.viewer_fid,
            limit: params.options.limit,
            cursor: copy_optional_text(&params.options.cursor),
        }
    }
}

/// The query holds a `String`, which no spec function can build, so no
/// `from_spec` is claimed; the contract of `from` states the result.
impl<'a> vstd::std_specs::convert::FromSpecImpl<&'a GetReactionsParams> for GetReactionsRawQuery {
    open spec fn obeys_from_spec() -> bool {
        false
    }

    open spec fn from_spec(params: &'a GetReactionsParams) -> Self {
        vstd::pervasive::arbitrary()
    }
}

impl<'a> From<&'a GetUsersByFidsParams> for GetUsersByFidsRawQuery {
    /// The query of a users request: the ids in decimal, joined by commas.
    fn from(params: &'a GetUsersByFidsParams) -> (query: Self)
        ensures
            query.fids@ == query_list(fid_texts(params.fids@)),
    {
        let texts = fid_decimal_texts(&params.fids);
        GetUsersByFidsRawQuery { fids: join_texts(&texts, ",") }
    }
}

/// The query holds a `String`, which no spec function can build, so no
/// `from_spec` is claimed; the contract of `from` states the result.
impl<'a> vstd::std_specs::convert::FromSpecImpl<&'a GetUsersByFidsParams> for GetUsersByFidsRawQuery {
    open spec fn obeys_from_spec() -> bool {
        false
    }

    open spec fn from_spec(params: &'a GetUsersByFidsParams) -> Self {
        vstd::pervasive::arbitrary()
    }
}

impl<'a> From<&'a GetNotificationsParams> for GetNotificationsRawQuery {
    /// The query of a notifications request: the kind names joined by commas
    /// where kinds are given, the rest copied.
    fn from(params: &'a GetNotificationsParams) -> (query: Self)
        ensures
            query.fid == params.fid,
            params.kinds is None ==> query.kinds is None,
            params.kinds matches Some(kinds) ==> (query.kinds matches Some(text)
                && text@ == query_list(notification_kind_names(kinds@))),
            query.limit == params.limit,
            query.cursor == params.cursor,
    {
        let kinds = match &params.kinds {
            Some(kinds) => {
                let names = notification_kind_texts(kinds);
                Some(join_texts(&names, ","))
            },
            None => None,
        };
        GetNotificationsRawQuery {
            fid: params.fid,
            kinds,
            limit: params.limit,
            cursor: copy_optional_text(&params.cursor),
        }
    }
}

/// The query holds a `String`, which no spec function can build, so no
/// `from_spec` is claimed; the contract of `from` states the result.
impl<'a> vstd::std_specs::convert::FromSpecImpl<&'a GetNotificationsParams> for GetNotificationsRawQuery {
    open spec fn obeys_from_spec() -> bool {
        false
    }

    open spec fn from_spec(params: &'a GetNotificationsParams) -> Self {
        vstd::pervasive::arbitrary()
    }
}

impl GetCastConversationParams {
    /// A conversation request for the cast that `identifier` names.
    pub fn new(
        identifier: String,
        id_type: CastIdentifierKind,
        options: CastConversationOptions,
    ) -> (params: Self)
        ensures
            params.identifier == identifier,
            params.id_type == id_type,
            params.options == options,
    {
        Self { identifier, id_type, options }
    }
}

/// The id list of a users query, split at its commas, holds one piece per
/// id, and each piece parses to its id.
pub proof fn lemma_users_query_splits_back(fids: Seq<Fid>)
    requires
        fids.len() > 0,
    ensures
        split_spec(query_list(fid_texts(fids)), ',').len() == fids.len(),
        forall|i: int|
            0 <= i < fids.len() ==> parse_u64_spec(#[trigger] split_spec(query_list(fid_texts(fids)), ',')[i])
                == Ok::<u64, DecimalError>(fids[i]),
{
    let parts = fid_texts(fids);
    reveal_strlit(",");
    assert(list_separator() =~= seq![',']);
    assert forall|i: int| 0 <= i < parts.len() implies !(#[trigger] parts[i]).contains(',') by {
        lemma_decimal_text_digits(fids[i] as nat);
        if parts[i].contains(',') {
            let j = choose|j: int| 0 <= j < parts[i].len() && parts[i][j] == ',';
            assert(is_decimal_digit(decimal_text(fids[i] as nat)[j]));
        }
    }
    lemma_split_join(parts, ',');
    assert forall|i: int| 0 <= i < fids.len() implies parse_u64_spec(
        #[trigger] split_spec(query_list(fid_texts(fids)), ',')[i],
    ) == Ok::<u64, DecimalError>(fids[i]) by {
        lemma_parse_render(fids[i]);
    }
}

/// The kinds list of a notifications query names each kind by its
/// identifier in small letters, in order, joined by commas.
pub proof fn lemma_notifications_query_uses_lowercase_idents(kinds: Seq<NotificationFilterKind>)
    ensures
        query_list(notification_kind_names(kinds)) == query_list(
            kinds.map_values(|k: NotificationFilterKind| lowercase(k.ident())),
        ),
{
    NotificationFilterKind::lemma_names_follow_idents();
    assert(notification_kind_names(kinds) =~= kinds.map_values(
        |k: NotificationFilterKind| lowercase(k.ident()),
    ));
}

/// The types list of a reactions query names each filter by its identifier
/// in small letters, in order, joined by commas.
pub proof fn lemma_reactions_query_uses_lowercase_idents(types: Seq<ReactionFilter>)
    ensures
        query_list(reaction_filter_names(types)) == query_list(
            types.map_values(|k: ReactionFilter| lowercase(k.ident())),
        ),
{
    ReactionFilter::lemma_names_follow_idents();
    assert(reaction_filter_names(types) =~= types.map_values(|k: ReactionFilter| lowercase(k.ident())));
}

} // verus!
