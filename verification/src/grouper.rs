//! The flat-stream record grouper: a feed that lists the fields of one record
//! after another, with no element around each record, is cut into records
//! wherever the first field's tag comes again.

use vstd::prelude::*;
use crate::text::{str_eq, Text};
use crate::xml::{data_text, event_at, event_bound, tag_text, EventSource, Read, ReadView};

verus! {

/// A tag and the text under it.
pub type Pair = (String, String);

/// A [`Pair`] as plain values.
pub type PairView = (Seq<char>, Seq<char>);

/// The records that the pairs fall into when every pair tagged `sentinel`
/// begins a new record and every other pair joins the record before it. A
/// leading pair begins a record whatever its tag.
pub open spec fn grouped_by(pairs: Seq<PairView>, sentinel: Seq<char>) -> Seq<Seq<PairView>>
    decreases pairs.len(),
{
    if pairs.len() == 0 {
        Seq::empty()
    } else {
        let earlier = grouped_by(pairs.drop_last(), sentinel);
        if pairs.last().0 == sentinel || earlier.len() == 0 {
            earlier.push(seq![pairs.last()])
        } else {
            earlier.update(earlier.len() - 1, earlier.last().push(pairs.last()))
        }
    }
}

/// The records that the pairs fall into, with the tag of the first pair as
/// the sentinel. No pairs, no records.
pub open spec fn grouped(pairs: Seq<PairView>) -> Seq<Seq<PairView>> {
    if pairs.len() == 0 {
        Seq::empty()
    } else {
        grouped_by(pairs, pairs[0].0)
    }
}

/// Cuts the pairs into records: a record begins at every pair whose tag is
/// that of the very first pair. Order is kept, within records and among them.
pub fn group(pairs: Vec<Pair>) -> (records: Vec<Vec<Pair>>)
    ensures
        records.deep_view() == grouped(pairs.deep_view()),
{
    let ghost all = pairs.deep_view();
    let mut records: Vec<Vec<Pair>> = Vec::new();
    if pairs.len() == 0 {
        assert(records.deep_view() =~= Seq::empty());
        return records;
    }
    let sentinel = pairs[0].0.clone();
    let mut current: Vec<Pair> = Vec::new();
    let mut started = false;
    assert(records.deep_view() =~= Seq::empty());
    for pair in it: pairs
        invariant
            all == pairs.deep_view(),
            it.seq() == pairs@,
            !started ==> it.index() == 0 && records@.len() == 0 && current@.len() == 0,
            started ==> grouped_by(all.take(it.index()), sentinel@) == records.deep_view().push(
                current.deep_view(),
            ),
    {
        let ghost n = it.index();
        let ghost before = records.deep_view();
        let ghost open = current.deep_view();
        proof {
            assert(all.take(n + 1).drop_last() =~= all.take(n));
            assert(all.take(n + 1).last() == pair.deep_view());
        }
        if str_eq(pair.0.as_str(), sentinel.as_str()) || !started {
            if started {
                records.push(current);
                current = Vec::new();
                assert(records.deep_view() =~= before.push(open));
            }
            started = true;
            current.push(pair);
            assert(current.deep_view() =~= seq![pair.deep_view()]);
            assert(grouped_by(all.take(n + 1), sentinel@) == grouped_by(
                all.take(n),
                sentinel@,
            ).push(seq![pair.deep_view()]));
        } else {
            current.push(pair);
            assert(current.deep_view() =~= open.push(pair.deep_view()));
            assert(before.push(open).update(before.len() as int, open.push(pair.deep_view()))
                =~= before.push(open.push(pair.deep_view())));
            assert(grouped_by(all.take(n + 1), sentinel@) == before.push(open).update(
                before.len() as int,
                open.push(pair.deep_view()),
            ));
        }
    }
    assert(all.take(all.len() as int) =~= all);
    let ghost before = records.deep_view();
    records.push(current);
    assert(records.deep_view() =~= before.push(current.deep_view()));
    records
}

/// Grouping with any sentinel keeps every pair, in order: the records laid
/// end to end are the pairs again.
pub proof fn lemma_grouped_by_keeps_pairs(pairs: Seq<PairView>, sentinel: Seq<char>)
    ensures
        grouped_by(pairs, sentinel).flatten() == pairs,
    decreases pairs.len(),
{
    let records = grouped_by(pairs, sentinel);
    records.lemma_flatten_and_flatten_alt_are_equivalent();
    if pairs.len() == 0 {
        assert(records.flatten_alt() =~= pairs);
    } else {
        let earlier = grouped_by(pairs.drop_last(), sentinel);
        lemma_grouped_by_keeps_pairs(pairs.drop_last(), sentinel);
        earlier.lemma_flatten_and_flatten_alt_are_equivalent();
        if pairs.last().0 == sentinel || earlier.len() == 0 {
            assert(records.drop_last() =~= earlier);
            assert(records.flatten_alt() =~= pairs);
        } else {
            assert(records.drop_last() =~= earlier.drop_last());
            assert(records.flatten_alt() =~= earlier.flatten_alt().push(pairs.last()));
            assert(records.flatten_alt() =~= pairs);
        }
    }
}

/// Whether a record begins with a pair tagged `sentinel` and holds no other
/// pair tagged so.
pub open spec fn begins_at(record: Seq<PairView>, sentinel: Seq<char>) -> bool {
    &&& record.len() > 0
    &&& record[0].0 == sentinel
    &&& forall|j: int| 0 < j < record.len() ==> (#[trigger] record[j]).0 != sentinel
}

/// Grouping yields no records only where there are no pairs.
proof fn lemma_grouped_by_nonempty(pairs: Seq<PairView>, sentinel: Seq<char>)
    ensures
        pairs.len() > 0 ==> grouped_by(pairs, sentinel).len() > 0,
    decreases pairs.len(),
{
    if pairs.len() > 0 {
        lemma_grouped_by_nonempty(pairs.drop_last(), sentinel);
    }
}

/// Where the first pair carries the sentinel, every record begins with a
/// pair that carries it and holds it nowhere else.
pub proof fn lemma_grouped_by_boundaries(pairs: Seq<PairView>, sentinel: Seq<char>)
    requires
        pairs.len() > 0 ==> pairs[0].0 == sentinel,
    ensures
        forall|k: int|
            0 <= k < grouped_by(pairs, sentinel).len() ==> begins_at(
                #[trigger] grouped_by(pairs, sentinel)[k],
                sentinel,
            ),
    decreases pairs.len(),
{
    if pairs.len() > 0 {
        let records = grouped_by(pairs, sentinel);
        let earlier = grouped_by(pairs.drop_last(), sentinel);
        lemma_grouped_by_boundaries(pairs.drop_last(), sentinel);
        lemma_grouped_by_nonempty(pairs.drop_last(), sentinel);
        assert forall|k: int| 0 <= k < records.len() implies begins_at(
            #[trigger] records[k],
            sentinel,
        ) by {
            if pairs.last().0 == sentinel || earlier.len() == 0 {
                if k < earlier.len() {
                    assert(records[k] == earlier[k]);
                } else {
                    assert(records[k] == seq![pairs.last()]);
                }
            } else {
                if k < earlier.len() - 1 {
                    assert(records[k] == earlier[k]);
                } else {
                    assert(begins_at(earlier[k], sentinel));
                    assert(records[k] == earlier[k].push(pairs.last()));
                }
            }
        }
    }
}

/// Every pair is kept. The records laid end to end are the pairs again, in
/// their order.
pub proof fn lemma_records_keep_pairs(pairs: Seq<PairView>)
    ensures
        grouped(pairs).flatten() == pairs,
{
    if pairs.len() == 0 {
        assert(grouped(pairs).flatten() =~= pairs);
    } else {
        lemma_grouped_by_keeps_pairs(pairs, pairs[0].0);
    }
}

/// The boundary rule. Every record begins with a pair that carries the tag
/// of the very first pair, and holds that tag nowhere else: a record ends
/// just before the tag comes again.
pub proof fn lemma_records_begin_at_sentinel(pairs: Seq<PairView>)
    ensures
        forall|k: int|
            0 <= k < grouped(pairs).len() ==> begins_at(#[trigger] grouped(pairs)[k], pairs[0].0),
{
    if pairs.len() > 0 {
        lemma_grouped_by_boundaries(pairs, pairs[0].0);
    }
}

/// A single record. If the tag of the first pair never comes again, all the
/// pairs form one record.
pub proof fn lemma_single_record(pairs: Seq<PairView>)
    requires
        pairs.len() > 0,
        forall|i: int| 0 < i < pairs.len() ==> (#[trigger] pairs[i]).0 != pairs[0].0,
    ensures
        grouped(pairs).len() == 1,
        grouped(pairs)[0] == pairs,
{
    lemma_one_record_by(pairs, pairs[0].0);
}

/// Pairs of which none but perhaps the first carries the sentinel form one
/// record.
proof fn lemma_one_record_by(pairs: Seq<PairView>, sentinel: Seq<char>)
    requires
        pairs.len() > 0,
        forall|i: int| 0 < i < pairs.len() ==> (#[trigger] pairs[i]).0 != sentinel,
    ensures
        grouped_by(pairs, sentinel) == seq![pairs],
    decreases pairs.len(),
{
    if pairs.len() == 1 {
        assert(grouped_by(pairs.drop_last(), sentinel).len() == 0);
        assert(pairs =~= seq![pairs.last()]);
        assert(grouped_by(pairs, sentinel) =~= seq![pairs]);
    } else {
        let earlier = pairs.drop_last();
        assert(forall|i: int| 0 < i < earlier.len() ==> (#[trigger] earlier[i]) == pairs[i]);
        lemma_one_record_by(earlier, sentinel);
        assert(earlier.push(pairs.last()) =~= pairs);
        assert(grouped_by(pairs, sentinel) =~= seq![pairs]);
    }
}

/// What the flattener takes from a document, one event at a time.
#[derive(Debug)]
pub enum Mark {
    /// An opening tag, with its decoded name.
    Open { tag: String },
    /// Character data.
    Text { text: String },
    /// A closing tag.
    Close,
    /// Any other event.
    Other,
}

/// A [`Mark`] as plain values.
pub enum MarkView {
    Open { tag: Seq<char> },
    Text { text: Seq<char> },
    Close,
    Other,
}

impl View for Mark {
    type V = MarkView;

    open spec fn view(&self) -> MarkView {
        match self {
            Mark::Open { tag } => MarkView::Open { tag: tag@ },
            Mark::Text { text } => MarkView::Text { text: text@ },
            Mark::Close => MarkView::Close,
            Mark::Other => MarkView::Other,
        }
    }
}

impl DeepView for Mark {
    type V = MarkView;

    open spec fn deep_view(&self) -> MarkView {
        self@
    }
}

/// How far the flattener is into a pair.
pub enum Pending {
    /// Not inside a pair.
    Nothing,
    /// Just behind an opening tag.
    Tag(Seq<char>),
    /// Behind an opening tag and the character data that followed it at once.
    Pair(Seq<char>, Seq<char>),
}

/// The flattener's state as plain values.
pub struct FlatView {
    pub pending: Pending,
    pub pairs: Seq<PairView>,
}

impl FlatView {
    /// The state before any event.
    pub open spec fn initial() -> FlatView {
        FlatView { pending: Pending::Nothing, pairs: Seq::empty() }
    }

    /// The state after one more event. A pair is complete when an opening
    /// tag, character data and a closing tag come one right after the other;
    /// anything else in between drops what was pending. Nesting plays no part.
    pub open spec fn after(self, mark: MarkView) -> FlatView {
        match mark {
            MarkView::Open { tag } => FlatView { pending: Pending::Tag(tag), ..self },
            MarkView::Text { text } => match self.pending {
                Pending::Tag(tag) => FlatView { pending: Pending::Pair(tag, text), ..self },
                _ => FlatView { pending: Pending::Nothing, ..self },
            },
            MarkView::Close => match self.pending {
                Pending::Pair(tag, text) => FlatView {
                    pending: Pending::Nothing,
                    pairs: self.pairs.push((tag, text)),
                },
                _ => FlatView { pending: Pending::Nothing, ..self },
            },
            MarkView::Other => FlatView { pending: Pending::Nothing, ..self },
        }
    }

    /// The state after a run of events, taken in order.
    pub open spec fn run(self, marks: Seq<MarkView>) -> FlatView
        decreases marks.len(),
    {
        if marks.len() == 0 {
            self
        } else {
            self.run(marks.drop_last()).after(marks.last())
        }
    }
}

/// The pairs that a run of events flattens to, in document order.
pub open spec fn flattened(marks: Seq<MarkView>) -> Seq<PairView> {
    FlatView::initial().run(marks).pairs
}

/// Flattens the events of a document into pairs.
pub struct Flattener {
    tag: Option<String>,
    text: Option<String>,
    pairs: Vec<Pair>,
}

impl View for Flattener {
    type V = FlatView;

    closed spec fn view(&self) -> FlatView {
        FlatView {
            pending: match (self.tag, self.text) {
                (Some(tag), Some(text)) => Pending::Pair(tag@, text@),
                (Some(tag), None) => Pending::Tag(tag@),
                _ => Pending::Nothing,
            },
            pairs: self.pairs.deep_view(),
        }
    }
}

impl Flattener {
    /// A flattener that has seen no event.
    pub fn new() -> (flattener: Self)
        ensures
            flattener@ == FlatView::initial(),
    {
        let flattener = Flattener { tag: None, text: None, pairs: Vec::new() };
        assert(flattener.pairs.deep_view() =~= Seq::empty());
        flattener
    }

    /// Takes one event.
    pub fn observe(&mut self, mark: Mark)
        ensures
            final(self)@ == old(self)@.after(mark@),
    {
        let tag = self.tag.take();
        let text = self.text.take();
        match mark {
            Mark::Open { tag } => {
                self.tag = Some(tag);
            },
            Mark::Text { text: data } => {
                match (tag, text) {
                    (Some(tag), None) => {
                        self.tag = Some(tag);
                        self.text = Some(data);
                    },
                    _ => {},
                }
            },
            Mark::Close => {
                match (tag, text) {
                    (Some(tag), Some(text)) => {
                        let pair = (tag, text);
                        self.pairs.push(pair);
                        assert(self.pairs.deep_view() =~= old(self).pairs.deep_view().push(
                            pair.deep_view(),
                        ));
                    },
                    _ => {},
                }
            },
            Mark::Other => {},
        }
    }

    /// The pairs completed so far, in document order.
    pub fn finish(self) -> (pairs: Vec<Pair>)
        ensures
            pairs.deep_view() == self@.pairs,
    {
        self.pairs
    }
}

/// The events that the flattener takes from a document from the event
/// numbered `step` on, with `budget` events still allowed, up to the end of
/// the input or the first fault. An opening tag counts by its name alone.
pub open spec fn marks_from(input: Seq<char>, step: nat, budget: nat) -> Seq<MarkView>
    decreases budget,
{
    if budget == 0 {
        Seq::empty()
    } else {
        let rest = marks_from(input, step + 1, (budget - 1) as nat);
        match event_at(input, true, step) {
            None => Seq::empty(),
            Some(ReadView::Eof) => Seq::empty(),
            Some(ReadView::Start { name, .. }) => match tag_text(name) {
                Some(tag) => seq![MarkView::Open { tag }] + rest,
                None => Seq::empty(),
            },
            Some(ReadView::Text { escaped }) => match data_text(escaped) {
                Some(text) => seq![MarkView::Text { text }] + rest,
                None => Seq::empty(),
            },
            Some(ReadView::End { .. }) => seq![MarkView::Close] + rest,
            Some(_) => seq![MarkView::Other] + rest,
        }
    }
}

/// The events that the flattener takes from a whole document, read with the
/// whitespace around character data dropped.
pub open spec fn marks_read(input: Seq<char>) -> Seq<MarkView> {
    marks_from(input, 0, event_bound(input))
}

/// Flattens a document into pairs. A fault of the tokenizer ends the pairs
/// where it occurs and is not reported: what was complete by then is
/// returned.
pub fn flatten<T: Text>(xml: T) -> (pairs: Vec<Pair>)
    ensures
        pairs.deep_view() == flattened(marks_read(xml.text())),
{
    let mut source = EventSource::open(xml.as_text(), true);
    let mut flattener = Flattener::new();
    let ghost input = xml.text();
    let ghost mut seen: Seq<MarkView> = Seq::empty();
    loop
        invariant_except_break
            marks_read(input) == seen + marks_from(input, source.step(), source.budget()),
        invariant
            input == xml.text(),
            source.input() == input,
            source.trims(),
            flattener@ == FlatView::initial().run(seen),
        ensures
            marks_read(input) == seen,
        decreases source.budget(),
    {
        let ghost rest = marks_from(input, source.step(), source.budget());
        let mark = match source.next() {
            Err(_) => {
                assert(seen + rest =~= seen);
                break ;
            },
            Ok(Read::Eof) => {
                assert(seen + rest =~= seen);
                break ;
            },
            Ok(Read::Start { name, .. }) => match source.content(name.as_slice()) {
                Ok(tag) => Mark::Open { tag },
                Err(_) => {
                    assert(seen + rest =~= seen);
                    break ;
                },
            },
            Ok(Read::Text { escaped }) => match source.text(escaped.as_slice()) {
                Ok(text) => Mark::Text { text },
                Err(_) => {
                    assert(seen + rest =~= seen);
                    break ;
                },
            },
            Ok(Read::End { .. }) => Mark::Close,
            Ok(_) => Mark::Other,
        };
        proof {
            let next = marks_from(input, source.step(), source.budget());
            assert(seen.push(mark@).drop_last() =~= seen);
            assert(seen.push(mark@) + next =~= seen + rest);
            seen = seen.push(mark@);
        }
        flattener.observe(mark);
    }
    flattener.finish()
}

} // verus!
