//! Change-event records and the decoding of raw native events.
//!
//! A raw native event reaches the library as plain values: the native mask
//! bits and the optional name of the changed entry. Decoding turns a raw
//! event into a boundary-safe record, and a batch decode keeps exactly the
//! events whose change kind the library distinguishes, in arrival order.

use vstd::prelude::*;
use vstd::string::StringExecFns;

verus! {

/// Native mask bit for a created entry.
pub const MASK_CREATE: u32 = 0x0000_0100;
/// Native mask bit for a deleted entry.
pub const MASK_DELETE: u32 = 0x0000_0200;
/// Native mask bit for a modified entry.
pub const MASK_MODIFY: u32 = 0x0000_0002;
/// Native mask bit marking an event that concerns a directory.
pub const MASK_ISDIR: u32 = 0x4000_0000;

/// The change kinds a record can carry. Any native change kind that the
/// library does not distinguish decodes to `UNHANDLED`.
#[derive(Clone, Copy, Debug, PartialEq, Eq, Structural)]
pub enum INotifyCEventMask {
    CREATE,
    DELETE,
    MODIFY,
    UNHANDLED,
}

/// One raw native event, as plain values: the native mask bits and the
/// changed entry's name, absent when the native event carried none.
pub struct RawEvent {
    pub mask: u32,
    pub name: Option<String>,
}

/// Mathematical model of a raw event.
pub ghost struct RawEventView {
    pub mask: u32,
    pub name: Option<Seq<char>>,
}

impl View for RawEvent {
    type V = RawEventView;

    open spec fn view(&self) -> RawEventView {
        RawEventView {
            mask: self.mask,
            name: match self.name {
                Some(s) => Some(s@),
                None => None,
            },
        }
    }
}

/// One boundary-safe change-event record: the changed entry's name (a
/// sentinel when the native event carried none) and the decoded change kind.
pub struct INotifyCEvent {
    pub name: String,
    pub mask: INotifyCEventMask,
}

/// Mathematical model of a change-event record.
pub ghost struct EventView {
    pub name: Seq<char>,
    pub mask: INotifyCEventMask,
}

impl View for INotifyCEvent {
    type V = EventView;

    open spec fn view(&self) -> EventView {
        EventView { name: self.name@, mask: self.mask }
    }
}

/// The change kind a native mask decodes to: a mask is recognised only when
/// it reports exactly one of the three watched change kinds and nothing else
/// (in particular, directory meta-events carry the directory bit as well and
/// decode to `UNHANDLED`).
pub open spec fn kind_of_bits(bits: u32) -> INotifyCEventMask {
    if bits == MASK_CREATE {
        INotifyCEventMask::CREATE
    } else if bits == MASK_DELETE {
        INotifyCEventMask::DELETE
    } else if bits == MASK_MODIFY {
        INotifyCEventMask::MODIFY
    } else {
        INotifyCEventMask::UNHANDLED
    }
}

/// A raw event is kept in a batch exactly when its change kind is one the
/// library distinguishes.
pub open spec fn is_reported(bits: u32) -> bool {
    kind_of_bits(bits) != INotifyCEventMask::UNHANDLED
}

/// The name a record carries: the raw event's own name, or the sentinel
/// when the native event carried none.
pub open spec fn name_or_sentinel(name: Option<Seq<char>>) -> Seq<char> {
    match name {
        Some(s) => s,
        None => "none"@,
    }
}

/// The record a single raw event decodes to.
pub open spec fn record_of(raw: RawEventView) -> EventView {
    EventView { name: name_or_sentinel(raw.name), mask: kind_of_bits(raw.mask) }
}

/// The batch a sequence of raw events decodes to: the records of the
/// reported events, in arrival order, nothing reordered and nothing kept
/// twice.
pub open spec fn decode_spec(raws: Seq<RawEventView>) -> Seq<EventView>
    decreases raws.len(),
{
    if raws.len() == 0 {
        Seq::empty()
    } else {
        let rest = decode_spec(raws.drop_last());
        if is_reported(raws.last().mask) {
            rest.push(record_of(raws.last()))
        } else {
            rest
        }
    }
}

/// The models of a sequence of raw events.
pub open spec fn raw_views(s: Seq<RawEvent>) -> Seq<RawEventView> {
    s.map_values(|r: RawEvent| r@)
}

/// The models of a sequence of records.
pub open spec fn batch_views(s: Seq<INotifyCEvent>) -> Seq<EventView> {
    s.map_values(|e: INotifyCEvent| e@)
}

impl INotifyCEventMask {
    /// Decodes native mask bits into the change kind they report.
    pub fn from_bits(bits: u32) -> (kind: Self)
        ensures
            kind == kind_of_bits(bits),
    {
        if bits == MASK_CREATE {
            INotifyCEventMask::CREATE
        } else if bits == MASK_DELETE {
            INotifyCEventMask::DELETE
        } else if bits == MASK_MODIFY {
            INotifyCEventMask::MODIFY
        } else {
            INotifyCEventMask::UNHANDLED
        }
    }
}

impl INotifyCEvent {
    /// Decodes one raw event into a record, substituting the sentinel name
    /// when the raw event carries none.
    pub fn from_raw(raw: &RawEvent) -> (record: Self)
        ensures
            record@ == record_of(raw@),
    {
        let name: String = match &raw.name {
            Some(s) => s.clone(),
            None => String::from_str("none"),
        };
        let mask = INotifyCEventMask::from_bits(raw.mask);
        INotifyCEvent { name, mask }
    }
}

/// Decodes a sequence of raw events into the batch of records of the
/// reported ones, in arrival order.
pub fn decode_events(raws: &Vec<RawEvent>) -> (batch: Vec<INotifyCEvent>)
    ensures
        batch_views(batch@) == decode_spec(raw_views(raws@)),
{
    let mut batch: Vec<INotifyCEvent> = Vec::new();
    let mut i: usize = 0;
    while i < raws.len()
        invariant
            i <= raws.len(),
            batch_views(batch@) == decode_spec(raw_views(raws@).take(i as int)),
        decreases raws.len() - i,
    {
        let raw = &raws[i];
        let kind = INotifyCEventMask::from_bits(raw.mask);
        let ghost extended = raw_views(raws@).take(i as int + 1);
        proof {
            assert(extended.drop_last() =~= raw_views(raws@).take(i as int));
            assert(extended.last() == raws@[i as int]@);
        }
        if kind != INotifyCEventMask::UNHANDLED {
            let record = INotifyCEvent::from_raw(raw);
            batch.push(record);
        }
        proof {
            assert(batch_views(batch@) =~= decode_spec(extended));
        }
        i = i + 1;
    }
    proof {
        assert(raw_views(raws@).take(raws@.len() as int) =~= raw_views(raws@));
    }
    batch
}

/// Decoding distributes over concatenation: however the native layer
/// splits one burst of raw events across blocking reads, the records
/// observed across the reads, in order, are the records of the whole burst.
pub proof fn lemma_decode_distributes_over_concat(first: Seq<RawEventView>, second: Seq<
    RawEventView>)
    ensures
        decode_spec(first + second) == decode_spec(first) + decode_spec(second),
    decreases second.len(),
{
    if second.len() == 0 {
        assert(first + second =~= first);
        assert(decode_spec(first) + decode_spec(second) =~= decode_spec(first));
    } else {
        lemma_decode_distributes_over_concat(first, second.drop_last());
        assert((first + second).drop_last() =~= first + second.drop_last());
        if is_reported(second.last().mask) {
            assert(decode_spec(first) + decode_spec(second.drop_last()).push(
                record_of(second.last()),
            ) =~= (decode_spec(first) + decode_spec(second.drop_last())).push(
                record_of(second.last()),
            ));
        }
    }
}

/// A single raw create event for an entry decodes to exactly one record,
/// with kind `CREATE` and that entry's name.
pub proof fn lemma_single_create_decodes(name: Seq<char>)
    ensures
        decode_spec(seq![RawEventView { mask: MASK_CREATE, name: Some(name) }]) == seq![
            EventView { name, mask: INotifyCEventMask::CREATE },
        ],
{
    let raws = seq![RawEventView { mask: MASK_CREATE, name: Some(name) }];
    assert(raws.drop_last() =~= Seq::<RawEventView>::empty());
    assert(decode_spec(raws.drop_last()) =~= Seq::<EventView>::empty());
    assert(decode_spec(raws) =~= seq![EventView { name, mask: INotifyCEventMask::CREATE }]);
}

/// A modify of an entry followed by a delete of it, however the native
/// layer splits the two raw events across one or two blocking reads,
/// decodes to exactly one `MODIFY` record and one `DELETE` record for that
/// entry, in that order — nothing duplicated and nothing missing.
pub proof fn lemma_modify_then_delete_across_reads(
    name: Seq<char>,
    first: Seq<RawEventView>,
    second: Seq<RawEventView>,
)
    requires
        first + second == seq![
            RawEventView { mask: MASK_MODIFY, name: Some(name) },
            RawEventView { mask: MASK_DELETE, name: Some(name) },
        ],
    ensures
        decode_spec(first) + decode_spec(second) == seq![
            EventView { name, mask: INotifyCEventMask::MODIFY },
            EventView { name, mask: INotifyCEventMask::DELETE },
        ],
{
    lemma_decode_distributes_over_concat(first, second);
    let raws = seq![
        RawEventView { mask: MASK_MODIFY, name: Some(name) },
        RawEventView { mask: MASK_DELETE, name: Some(name) },
    ];
    assert(raws.drop_last() =~= seq![RawEventView { mask: MASK_MODIFY, name: Some(name) }]);
    assert(raws.drop_last().drop_last() =~= Seq::<RawEventView>::empty());
    assert(decode_spec(raws.drop_last().drop_last()) =~= Seq::<EventView>::empty());
    assert(decode_spec(raws.drop_last()) =~= seq![
        EventView { name, mask: INotifyCEventMask::MODIFY },
    ]);
    assert(decode_spec(raws) =~= seq![
        EventView { name, mask: INotifyCEventMask::MODIFY },
        EventView { name, mask: INotifyCEventMask::DELETE },
    ]);
}

/// A read whose raw events all carry unreported change kinds decodes to
/// the empty batch: the watch fired, nothing matched the filter, and the
/// result is a valid success with count zero rather than an error.
pub proof fn lemma_noise_decodes_empty(raws: Seq<RawEventView>)
    requires
        forall|i: int| 0 <= i < raws.len() ==> !is_reported(#[trigger] raws[i].mask),
    ensures
        decode_spec(raws).len() == 0,
    decreases raws.len(),
{
    if raws.len() > 0 {
        assert forall|i: int| 0 <= i < raws.drop_last().len() implies !is_reported(
            #[trigger] raws.drop_last()[i].mask,
        ) by {
            assert(raws.drop_last()[i] == raws[i]);
        }
        lemma_noise_decodes_empty(raws.drop_last());
        assert(!is_reported(raws[raws.len() - 1].mask));
    }
}

} // verus!
