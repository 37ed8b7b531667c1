//! Listing the cards of a registry.
use crate::api::error::Error;
use crate::api::table::{render_table, sharp_centered_table};
use crate::api::text::same_text;
use crate::api::types::{
    tags_of, with_pair, Card, CardTable, ListCardResponse, ListTableRequest, Tags,
};
use crate::api::utils::{request_url, request_url_of, success_status, OpsmlPaths};
use vstd::prelude::*;
use vstd::string::*;

verus! {

/// Whether the server keeps a registry of this name.
pub open spec fn known_registry(registry: Seq<char>) -> bool {
    ||| registry == "data"@
    ||| registry == "model"@
    ||| registry == "run"@
    ||| registry == "pipeline"@
    ||| registry == "audit"@
    ||| registry == "project"@
}

/// The names paired with the values, as far as both reach.
pub open spec fn zip_text(names: Seq<Seq<char>>, values: Seq<Seq<char>>) -> Seq<
    (Seq<char>, Seq<char>),
> {
    Seq::new(
        if names.len() <= values.len() {
            names.len()
        } else {
            values.len()
        },
        |i: int| (names[i], values[i]),
    )
}

/// The tags that a list of names and a list of values define: none unless
/// both lists are given; else each name with the value at its place, as far
/// as both lists reach, a later value replacing an earlier one of the same
/// name.
pub open spec fn tags_from(tag_name: Option<Vec<String>>, tag_value: Option<Vec<String>>) -> Map<
    Seq<char>,
    Seq<char>,
> {
    match (tag_name, tag_value) {
        (Some(names), Some(values)) => {
            let pairs = zip_text(names.deep_view(), values.deep_view());
            tags_of(pairs, pairs.len() as int)
        },
        _ => Map::empty(),
    }
}

/// The pairs of tags that the first `n` of `pairs` leave, in the order in
/// which their names first come.
pub open spec fn tag_pairs(pairs: Seq<(Seq<char>, Seq<char>)>, n: int) -> Seq<
    (Seq<char>, Seq<char>),
>
    decreases n,
{
    if n <= 0 {
        Seq::empty()
    } else {
        with_pair(tag_pairs(pairs, n - 1), pairs[n - 1].0, pairs[n - 1].1)
    }
}

/// The pairs of the tags that a list of names and a list of values define.
pub open spec fn tag_pairs_from(tag_name: Option<Vec<String>>, tag_value: Option<Vec<String>>) -> Seq<
    (Seq<char>, Seq<char>),
> {
    match (tag_name, tag_value) {
        (Some(names), Some(values)) => {
            let pairs = zip_text(names.deep_view(), values.deep_view());
            tag_pairs(pairs, pairs.len() as int)
        },
        _ => Seq::empty(),
    }
}

/// The header of the table of cards.
pub open spec fn card_header() -> Seq<Seq<char>> {
    seq!["name"@, "repository"@, "date"@, "contact"@, "version"@, "uid"@]
}

/// The row of a card: a card without a date has an empty date.
pub open spec fn card_row(card: Card) -> Seq<Seq<char>> {
    seq![
        card.name@,
        card.repository@,
        match card.date {
            Some(date) => date@,
            None => Seq::<char>::empty(),
        },
        card.contact@,
        card.version@,
        card.uid@,
    ]
}

/// The header and the rows of the table of `cards`.
pub open spec fn card_records(cards: Seq<Card>) -> Seq<Seq<Seq<char>>> {
    seq![card_header()] + Seq::new(cards.len(), |i: int| card_row(cards[i]))
}

impl CardTable {
    /// The cells of the row, in the order of the header.
    pub open spec fn cells(&self) -> Seq<Seq<char>> {
        seq![self.name@, self.repository@, self.date@, self.contact@, self.version@, self.uid@]
    }

    pub fn headers() -> (header: Vec<String>)
        ensures
            header.deep_view() == card_header(),
    {
        let mut header: Vec<String> = Vec::new();
        header.push(String::from_str("name"));
        header.push(String::from_str("repository"));
        header.push(String::from_str("date"));
        header.push(String::from_str("contact"));
        header.push(String::from_str("version"));
        header.push(String::from_str("uid"));
        assert(header.deep_view() =~= card_header());
        header
    }

    pub fn fields(&self) -> (cells: Vec<String>)
        ensures
            cells.deep_view() == self.cells(),
    {
        let mut cells: Vec<String> = Vec::new();
        cells.push(self.name.clone());
        cells.push(self.repository.clone());
        cells.push(self.date.clone());
        cells.push(self.contact.clone());
        cells.push(self.version.clone());
        cells.push(self.uid.clone());
        assert(cells.deep_view() =~= self.cells());
        cells
    }

    /// The row that shows `card`.
    pub fn of_card(card: &Card) -> (row: CardTable)
        ensures
            row.cells() == card_row(*card),
    {
        let date = match &card.date {
            Some(date) => date.clone(),
            None => String::new(),
        };
        let row = CardTable {
            name: card.name.clone(),
            repository: card.repository.clone(),
            date,
            contact: card.contact.clone(),
            version: card.version.clone(),
            uid: card.uid.clone(),
        };
        assert(row.cells() =~= card_row(*card));
        row
    }
}

/// One request to list the cards of a registry.
pub struct CardLister<'a> {
    pub registry_type: &'a str,
    pub name: Option<&'a str>,
    pub repository: Option<&'a str>,
    pub version: Option<&'a str>,
    pub uid: Option<&'a str>,
    pub limit: Option<&'a i16>,
    pub tags: Tags,
    pub max_date: Option<&'a str>,
    pub ignore_release_candidates: &'a bool,
}

impl<'a> CardLister<'a> {
    /// Accepts the registry of the request if the server keeps one of that
    /// name.
    pub fn validate_registry(&self) -> (checked: Result<(), Error>)
        ensures
            checked is Ok <==> known_registry(self.registry_type@),
            checked matches Err(e) ==> e matches Error::InvalidRegistry { registry } && registry@
                == self.registry_type@,
    {
        let registry = self.registry_type;
        if same_text(registry, "data") || same_text(registry, "model") || same_text(
            registry,
            "run",
        ) || same_text(registry, "pipeline") || same_text(registry, "audit") || same_text(
            registry,
            "project",
        ) {
            Ok(())
        } else {
            Err(Error::InvalidRegistry { registry: String::from_str(registry) })
        }
    }

    /// Sets the tags of the request from a list of names and a list of
    /// values.
    pub fn construct_tags(&mut self, tag_name: Option<Vec<String>>, tag_value: Option<Vec<String>>)
        ensures
            final(self).tags.wf(),
            final(self).tags@ == tags_from(tag_name, tag_value),
            final(self).tags.pairs() == tag_pairs_from(tag_name, tag_value),
            final(self).registry_type == old(self).registry_type,
            final(self).name == old(self).name,
            final(self).repository == old(self).repository,
            final(self).version == old(self).version,
            final(self).uid == old(self).uid,
            final(self).limit == old(self).limit,
            final(self).max_date == old(self).max_date,
            final(self).ignore_release_candidates == old(self).ignore_release_candidates,
    {
        let mut tags = Tags::new();
        match (&tag_name, &tag_value) {
            (Some(names), Some(values)) => {
                let ghost pairs = zip_text(names.deep_view(), values.deep_view());
                let count: usize = if names.len() <= values.len() {
                    names.len()
                } else {
                    values.len()
                };
                let mut i: usize = 0;
                while i < count
                    invariant
                        i <= count,
                        count == pairs.len(),
                        count <= names.len(),
                        count <= values.len(),
                        pairs == zip_text(names.deep_view(), values.deep_view()),
                        tags.wf(),
                        tags@ == tags_of(pairs, i as int),
                        tags.pairs() == tag_pairs(pairs, i as int),
                    decreases count - i,
                {
                    let name = names[i].clone();
                    let value = values[i].clone();
                    assert(pairs[i as int] == (name@, value@));
                    tags.insert(name, value);
                    i = i + 1;
                }
            },
            _ => {},
        }
        assert(tags.pairs().len() == 0 ==> tags.pairs() =~= Seq::empty());
        self.tags = tags;
    }

    /// The body of the request to the server.
    pub fn list_request(&self) -> (request: ListTableRequest<'_>)
        ensures
            request.registry_type == self.registry_type,
            request.name == self.name,
            request.repository == self.repository,
            request.version == self.version,
            request.uid == self.uid,
            request.limit == self.limit,
            *request.tags == self.tags,
            request.max_date == self.max_date,
            request.ignore_release_candidates == self.ignore_release_candidates,
    {
        ListTableRequest {
            registry_type: self.registry_type,
            name: self.name,
            repository: self.repository,
            version: self.version,
            uid: self.uid,
            limit: self.limit,
            tags: &self.tags,
            max_date: self.max_date,
            ignore_release_candidates: self.ignore_release_candidates,
        }
    }

    /// The address that the request is posted to.
    pub fn list_url(tracking_uri: &str) -> (address: Result<String, Error>)
        ensures
            match address {
                Ok(text) => request_url_of(tracking_uri@ + OpsmlPaths::ListCard.route(), None)
                    == Some(text@),
                Err(e) => {
                    &&& request_url_of(tracking_uri@ + OpsmlPaths::ListCard.route(), None) is None
                    &&& e matches Error::InvalidUrl { url } && url@ == tracking_uri@
                        + OpsmlPaths::ListCard.route()
                },
            },
    {
        let route = OpsmlPaths::ListCard.as_str(tracking_uri);
        request_url(route.as_str(), None)
    }

    /// The rows that show the cards, in the order of the listing.
    pub fn card_rows(cards: &ListCardResponse) -> (rows: Vec<CardTable>)
        ensures
            rows.len() == cards.cards.len(),
            forall|i: int| 0 <= i < rows.len() ==> (#[trigger] rows[i]).cells() == card_row(
                cards.cards[i],
            ),
    {
        let mut rows: Vec<CardTable> = Vec::new();
        let mut i: usize = 0;
        while i < cards.cards.len()
            invariant
                i <= cards.cards.len(),
                rows.len() == i,
                forall|k: int| 0 <= k < i ==> (#[trigger] rows[k]).cells() == card_row(
                    cards.cards[k],
                ),
            decreases cards.cards.len() - i,
        {
            rows.push(CardTable::of_card(&cards.cards[i]));
            i = i + 1;
        }
        rows
    }

    /// Draws the table of the cards that the reply lists. `parsed` is the
    /// listing that the body of the reply holds, if it holds one.
    pub fn parse_list_response(&self, parsed: Option<ListCardResponse>) -> (table: Result<
        String,
        Error,
    >)
        ensures
            match table {
                Ok(text) => parsed matches Some(listing) && text@ == sharp_centered_table(
                    card_records(listing.cards@),
                ),
                Err(e) => parsed is None && e is MalformedResponse,
            },
    {
        let listing = match parsed {
            Some(listing) => listing,
            None => {
                return Err(Error::MalformedResponse);
            },
        };
        let rows = CardLister::card_rows(&listing);
        let mut records: Vec<Vec<String>> = Vec::new();
        records.push(CardTable::headers());
        let mut i: usize = 0;
        while i < rows.len()
            invariant
                i <= rows.len(),
                rows.len() == listing.cards.len(),
                forall|k: int| 0 <= k < rows.len() ==> (#[trigger] rows[k]).cells() == card_row(
                    listing.cards[k],
                ),
                records.len() == i + 1,
                records@[0].deep_view() == card_header(),
                forall|k: int| 0 <= k < i ==> (#[trigger] records@[k + 1]).deep_view() == card_row(
                    listing.cards[k],
                ),
            decreases rows.len() - i,
        {
            records.push(rows[i].fields());
            i = i + 1;
        }
        proof {
            let drawn = records.deep_view();
            let wanted = card_records(listing.cards@);
            assert(drawn.len() == wanted.len());
            assert forall|j: int| 0 <= j < drawn.len() implies drawn[j] == wanted[j] by {
                if j > 0 {
                    assert(records@[(j - 1) + 1].deep_view() == card_row(listing.cards[j - 1]));
                }
            }
            assert(drawn =~= wanted);
        }
        Ok(render_table(records))
    }

    /// Reads the reply to the request: the table of the cards on a success
    /// status, the rejection with the status and the body on any other.
    pub fn list_response(&self, status: u16, body: String, parsed: Option<ListCardResponse>) -> (table:
        Result<String, Error>)
        ensures
            match table {
                Ok(text) => {
                    &&& success_status(status)
                    &&& parsed matches Some(listing) && text@ == sharp_centered_table(
                        card_records(listing.cards@),
                    )
                },
                Err(Error::ServerRejected { status: code, body: replied }) => !success_status(
                    status,
                ) && code == status && replied == body,
                Err(Error::MalformedResponse) => success_status(status) && parsed is None,
                Err(_) => false,
            },
    {
        if 200 <= status && status < 300 {
            self.parse_list_response(parsed)
        } else {
            Err(Error::ServerRejected { status, body })
        }
    }
}

} // verus!
