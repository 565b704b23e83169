//! The grammar of subscription channel names.
//!
//! A channel name is a dot-separated text. It starts with the two segments of
//! its namespace, `user.orders` or `user.trades`, and goes on with either two
//! segments (an instrument and an interval) or three (a kind, a currency and an
//! interval). `parsed` and `wire_form` are the two directions of the grammar
//! on `Seq<char>`; `ChannelIdentifier::parse` and `ChannelIdentifier::format`
//! are their executable counterparts.

use crate::text::{
    all_free_of, free_of, join, join_text, lemma_join_five, lemma_join_four, lemma_join_split,
    lemma_occurrences_of_join, lemma_split_join, lemma_split_len, lemma_split_segments_free,
    same_text, slice_texts, split, split_up_to, texts,
};
use vstd::prelude::*;
use vstd::std_specs::cmp::PartialEqSpecImpl;
use vstd::string::StringExecFns;

verus! {

/// The character that separates the segments of a channel name.
pub const SEPARATOR: char = '.';

/// The family of channels that a name belongs to, given by its two leading
/// segments.
#[derive(Clone, Copy, Debug, PartialEq, Eq, Structural)]
pub enum Namespace {
    /// Names that start with `user.orders`.
    UserOrders,
    /// Names that start with `user.trades`.
    UserTrades,
}

/// What a channel name says, as mathematical text.
pub enum ChannelIdentifierView {
    ByInstrument { instrument_name: Seq<char>, interval: Seq<char> },
    ByKind { kind: Seq<char>, currency: Seq<char>, interval: Seq<char> },
}

/// A parsed channel name of either namespace.
#[derive(Debug, Eq)]
pub enum ChannelIdentifier {
    ByInstrument { instrument_name: String, interval: String },
    ByKind { kind: String, currency: String, interval: String },
}

/// A text that is no channel name of the namespace it was parsed for.
#[derive(Debug, Eq)]
pub struct InvalidChannelFormat {
    /// The text that was rejected, unchanged.
    pub input: String,
    /// The namespace whose two patterns the text was held against.
    pub namespace: Namespace,
}

impl Clone for ChannelIdentifier {
    fn clone(&self) -> (c: ChannelIdentifier)
        ensures
            c == *self,
    {
        match self {
            ChannelIdentifier::ByInstrument { instrument_name, interval } => {
                ChannelIdentifier::ByInstrument {
                    instrument_name: instrument_name.clone(),
                    interval: interval.clone(),
                }
            },
            ChannelIdentifier::ByKind { kind, currency, interval } => ChannelIdentifier::ByKind {
                kind: kind.clone(),
                currency: currency.clone(),
                interval: interval.clone(),
            },
        }
    }
}

impl Clone for InvalidChannelFormat {
    fn clone(&self) -> (c: InvalidChannelFormat)
        ensures
            c == *self,
    {
        InvalidChannelFormat { input: self.input.clone(), namespace: self.namespace }
    }
}

impl PartialEq for ChannelIdentifier {
    fn eq(&self, other: &ChannelIdentifier) -> (r: bool) {
        match (self, other) {
            (
                ChannelIdentifier::ByInstrument { instrument_name, interval },
                ChannelIdentifier::ByInstrument {
                    instrument_name: other_instrument_name,
                    interval: other_interval,
                },
            ) => *instrument_name == *other_instrument_name && *interval == *other_interval,
            (
                ChannelIdentifier::ByKind { kind, currency, interval },
                ChannelIdentifier::ByKind {
                    kind: other_kind,
                    currency: other_currency,
                    interval: other_interval,
                },
            ) => *kind == *other_kind && *currency == *other_currency && *interval
                == *other_interval,
            _ => false,
        }
    }
}

impl PartialEqSpecImpl for ChannelIdentifier {
    open spec fn obeys_eq_spec() -> bool {
        true
    }

    open spec fn eq_spec(&self, other: &ChannelIdentifier) -> bool {
        self@ == other@
    }
}

impl PartialEq for InvalidChannelFormat {
    fn eq(&self, other: &InvalidChannelFormat) -> (r: bool) {
        self.input == other.input && self.namespace == other.namespace
    }
}

impl PartialEqSpecImpl for InvalidChannelFormat {
    open spec fn obeys_eq_spec() -> bool {
        true
    }

    open spec fn eq_spec(&self, other: &InvalidChannelFormat) -> bool {
        self.input@ == other.input@ && self.namespace == other.namespace
    }
}

impl View for ChannelIdentifier {
    type V = ChannelIdentifierView;

    open spec fn view(&self) -> ChannelIdentifierView {
        match self {
            ChannelIdentifier::ByInstrument { instrument_name, interval } => {
                ChannelIdentifierView::ByInstrument {
                    instrument_name: instrument_name@,
                    interval: interval@,
                }
            },
            ChannelIdentifier::ByKind { kind, currency, interval } => {
                ChannelIdentifierView::ByKind {
                    kind: kind@,
                    currency: currency@,
                    interval: interval@,
                }
            },
        }
    }
}

impl ChannelIdentifierView {
    /// The segments that follow the namespace, in wire order.
    pub open spec fn trailing(self) -> Seq<Seq<char>> {
        match self {
            ChannelIdentifierView::ByInstrument { instrument_name, interval } => seq![
                instrument_name,
                interval,
            ],
            ChannelIdentifierView::ByKind { kind, currency, interval } => seq![
                kind,
                currency,
                interval,
            ],
        }
    }

    /// No field holds the separator. Exactly these values have a wire form
    /// that parses back to them.
    pub open spec fn representable(self) -> bool {
        all_free_of(self.trailing(), SEPARATOR)
    }
}

impl Namespace {
    /// The two leading segments of every name of this namespace.
    pub open spec fn leading(self) -> Seq<Seq<char>> {
        match self {
            Namespace::UserOrders => seq!["user"@, "orders"@],
            Namespace::UserTrades => seq!["user"@, "trades"@],
        }
    }
}

/// The wire text of a channel: the leading segments of the namespace and the
/// fields of the identifier, joined by dots.
pub open spec fn wire_form(namespace: Namespace, id: ChannelIdentifierView) -> Seq<char> {
    join(namespace.leading() + id.trailing(), SEPARATOR)
}

/// The identifier that a wire text stands for in a namespace, if it is a
/// channel name of that namespace.
pub open spec fn parsed(namespace: Namespace, s: Seq<char>) -> Option<ChannelIdentifierView> {
    let segments = split(s, SEPARATOR);
    if segments.len() == 4 && segments.take(2) == namespace.leading() {
        Some(
            ChannelIdentifierView::ByInstrument {
                instrument_name: segments[2],
                interval: segments[3],
            },
        )
    } else if segments.len() == 5 && segments.take(2) == namespace.leading() {
        Some(
            ChannelIdentifierView::ByKind {
                kind: segments[2],
                currency: segments[3],
                interval: segments[4],
            },
        )
    } else {
        None
    }
}

impl Namespace {
    /// The second leading segment, which tells the namespaces apart.
    pub fn topic(self) -> (t: &'static str)
        ensures
            t@ == self.leading()[1],
    {
        match self {
            Namespace::UserOrders => "orders",
            Namespace::UserTrades => "trades",
        }
    }

    /// The pattern of the names by instrument: their wire form with each
    /// field replaced by its name in braces.
    pub open spec fn spec_instrument_pattern(self) -> Seq<char> {
        wire_form(
            self,
            ChannelIdentifierView::ByInstrument {
                instrument_name: "{instrument_name}"@,
                interval: "{interval}"@,
            },
        )
    }

    /// The pattern of the names by kind: their wire form with each field
    /// replaced by its name in braces.
    pub open spec fn spec_kind_pattern(self) -> Seq<char> {
        wire_form(
            self,
            ChannelIdentifierView::ByKind {
                kind: "{kind}"@,
                currency: "{currency}"@,
                interval: "{interval}"@,
            },
        )
    }

    /// The pattern of the names by instrument.
    pub fn instrument_pattern(self) -> (p: &'static str)
        ensures
            p@ == self.spec_instrument_pattern(),
    {
        let p = match self {
            Namespace::UserOrders => "user.orders.{instrument_name}.{interval}",
            Namespace::UserTrades => "user.trades.{instrument_name}.{interval}",
        };
        proof {
            let topic = self.leading()[1];
            let parts = seq!["user"@, topic, "{instrument_name}"@, "{interval}"@];
            let id = ChannelIdentifierView::ByInstrument {
                instrument_name: "{instrument_name}"@,
                interval: "{interval}"@,
            };
            assert(self.leading() + id.trailing() =~= parts);
            lemma_join_four("user"@, topic, "{instrument_name}"@, "{interval}"@, SEPARATOR);
            reveal_strlit("user");
            reveal_strlit("orders");
            reveal_strlit("trades");
            reveal_strlit("{instrument_name}");
            reveal_strlit("{interval}");
            reveal_strlit("user.orders.{instrument_name}.{interval}");
            reveal_strlit("user.trades.{instrument_name}.{interval}");
        }
        p
    }

    /// The pattern of the names by kind.
    pub fn kind_pattern(self) -> (p: &'static str)
        ensures
            p@ == self.spec_kind_pattern(),
    {
        let p = match self {
            Namespace::UserOrders => "user.orders.{kind}.{currency}.{interval}",
            Namespace::UserTrades => "user.trades.{kind}.{currency}.{interval}",
        };
        proof {
            let topic = self.leading()[1];
            let parts = seq!["user"@, topic, "{kind}"@, "{currency}"@, "{interval}"@];
            let id = ChannelIdentifierView::ByKind {
                kind: "{kind}"@,
                currency: "{currency}"@,
                interval: "{interval}"@,
            };
            assert(self.leading() + id.trailing() =~= parts);
            lemma_join_five(
                "user"@,
                topic,
                "{kind}"@,
                "{currency}"@,
                "{interval}"@,
                SEPARATOR,
            );
            reveal_strlit("user");
            reveal_strlit("orders");
            reveal_strlit("trades");
            reveal_strlit("{kind}");
            reveal_strlit("{currency}");
            reveal_strlit("{interval}");
            reveal_strlit("user.orders.{kind}.{currency}.{interval}");
            reveal_strlit("user.trades.{kind}.{currency}.{interval}");
        }
        p
    }
}

impl InvalidChannelFormat {
    /// Names what would have been accepted: the two patterns of the
    /// namespace, with ` or ` between them.
    pub fn expected(&self) -> (s: String)
        ensures
            s@ == self.namespace.spec_instrument_pattern() + " or "@
                + self.namespace.spec_kind_pattern(),
    {
        let mut out = self.namespace.instrument_pattern().to_owned();
        out.append(" or ");
        out.append(self.namespace.kind_pattern());
        out
    }
}

impl ChannelIdentifier {
    /// Writes the wire text of this identifier in a namespace.
    pub fn format(&self, namespace: Namespace) -> (s: String)
        ensures
            s@ == wire_form(namespace, self@),
    {
        match self {
            ChannelIdentifier::ByInstrument { instrument_name, interval } => {
                instrument_name_in(namespace, instrument_name.as_str(), interval.as_str())
            },
            ChannelIdentifier::ByKind { kind, currency, interval } => {
                kind_name_in(namespace, kind.as_str(), currency.as_str(), interval.as_str())
            },
        }
    }

    /// Reads a wire text as a channel name of a namespace. The text is split
    /// at its dots; a text of four segments is read by instrument and one of
    /// five by kind, each provided that the first two segments are those of
    /// the namespace. Any other text is rejected, and handed back in the
    /// error.
    pub fn parse(namespace: Namespace, s: &str) -> (r: Result<
        ChannelIdentifier,
        InvalidChannelFormat,
    >)
        ensures
            match parsed(namespace, s@) {
                Some(id) => r matches Ok(channel) && channel@ == id,
                None => r matches Err(e) && e.input@ == s@ && e.namespace == namespace,
            },
            r matches Ok(channel) ==> channel@.representable(),
    {
        proof {
            lemma_parsed_representable(namespace, s@);
        }
        match split_up_to(s, SEPARATOR, 5) {
            Some(mut parts) => {
                let ghost segments = texts(parts@);
                let n = parts.len();
                if n >= 4 && same_text(parts[0].as_str(), "user") && same_text(
                    parts[1].as_str(),
                    namespace.topic(),
                ) {
                    proof {
                        assert(segments.take(2) =~= namespace.leading());
                    }
                    let interval = parts.pop().unwrap();
                    if n == 4 {
                        let instrument_name = parts.pop().unwrap();
                        Ok(ChannelIdentifier::ByInstrument { instrument_name, interval })
                    } else {
                        let currency = parts.pop().unwrap();
                        let kind = parts.pop().unwrap();
                        Ok(ChannelIdentifier::ByKind { kind, currency, interval })
                    }
                } else {
                    Err(InvalidChannelFormat { input: s.to_owned(), namespace })
                }
            },
            None => Err(InvalidChannelFormat { input: s.to_owned(), namespace }),
        }
    }
}

/// The name of the channel of one instrument in a namespace.
pub fn instrument_name_in(namespace: Namespace, instrument_name: &str, interval: &str) -> (s:
    String)
    ensures
        s@ == wire_form(
            namespace,
            (ChannelIdentifierView::ByInstrument {
                instrument_name: instrument_name@,
                interval: interval@,
            }),
        ),
{
    let parts = ["user", namespace.topic(), instrument_name, interval];
    proof {
        let id = ChannelIdentifierView::ByInstrument {
            instrument_name: instrument_name@,
            interval: interval@,
        };
        assert(slice_texts(parts@) =~= namespace.leading() + id.trailing());
        reveal_strlit(".");
    }
    join_text(parts.as_slice(), ".")
}

/// The name of the channel of one kind of instrument in a currency, in a
/// namespace.
pub fn kind_name_in(namespace: Namespace, kind: &str, currency: &str, interval: &str) -> (s:
    String)
    ensures
        s@ == wire_form(
            namespace,
            (ChannelIdentifierView::ByKind {
                kind: kind@,
                currency: currency@,
                interval: interval@,
            }),
        ),
{
    let parts = ["user", namespace.topic(), kind, currency, interval];
    proof {
        let id = ChannelIdentifierView::ByKind {
            kind: kind@,
            currency: currency@,
            interval: interval@,
        };
        assert(slice_texts(parts@) =~= namespace.leading() + id.trailing());
        reveal_strlit(".");
    }
    join_text(parts.as_slice(), ".")
}

/// The leading segments are free of the separator.
pub proof fn lemma_leading_free(namespace: Namespace)
    ensures
        namespace.leading().len() == 2,
        all_free_of(namespace.leading(), SEPARATOR),
{
    reveal_strlit("user");
    reveal_strlit("orders");
    reveal_strlit("trades");
}

/// Parsing gives representable identifiers only: no field of a parsed name
/// holds a dot.
pub proof fn lemma_parsed_representable(namespace: Namespace, s: Seq<char>)
    ensures
        parsed(namespace, s) matches Some(id) ==> id.representable(),
{
    if let Some(id) = parsed(namespace, s) {
        lemma_split_segments_free(s, SEPARATOR);
        assert(id.representable());
    }
}

/// Formatting inverts parsing: an accepted wire text is the wire form of the
/// identifier it parses to.
pub proof fn lemma_format_inverts_parse(namespace: Namespace, s: Seq<char>)
    requires
        parsed(namespace, s) is Some,
    ensures
        wire_form(namespace, parsed(namespace, s)->Some_0) == s,
{
    let segments = split(s, SEPARATOR);
    let id = parsed(namespace, s)->Some_0;
    lemma_join_split(s, SEPARATOR);
    lemma_leading_free(namespace);
    assert(namespace.leading() + id.trailing() =~= segments);
}

/// Parsing inverts formatting exactly on the representable identifiers: the
/// wire form of an identifier parses back to it if and only if none of its
/// fields holds a dot.
pub proof fn lemma_parse_inverts_format(namespace: Namespace, id: ChannelIdentifierView)
    ensures
        parsed(namespace, wire_form(namespace, id)) == Some(id) <==> id.representable(),
{
    let segments = namespace.leading() + id.trailing();
    let s = wire_form(namespace, id);
    lemma_leading_free(namespace);
    if id.representable() {
        assert(all_free_of(segments, SEPARATOR));
        lemma_split_join(segments, SEPARATOR);
        assert(segments.take(2) =~= namespace.leading());
    } else {
        let k = choose|k: int| 0 <= k < id.trailing().len() && !free_of(
            #[trigger] id.trailing()[k],
            SEPARATOR,
        );
        lemma_occurrences_of_join(segments, SEPARATOR, k + 2);
        lemma_split_len(s, SEPARATOR);
    }
}

} // verus!
