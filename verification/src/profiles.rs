//! Extraction of PTZ capability descriptors from a GetProfiles response:
//! a single forward pass over XML parse events with a small accumulator
//! state, emitting one `PtzCapabilities` per `PTZConfiguration` block.

use vstd::prelude::*;

verus! {

use crate::ptz::{CapabilitiesView, MovementKind, PtzCapabilities};

/// One parse event, reduced to what the extraction pass reads: start and
/// end tags with their local names (and, for start tags, the attributes
/// as name/value pairs), everything else a placeholder. A `Malformed`
/// event stands for a parser-level error; the pass skips it.
pub enum XmlEvent {
    ElementStart { name: String, attrs: Vec<(String, String)> },
    ElementEnd { name: String },
    Other,
    Malformed,
}

/// The stream of parse events the XML reader yields for a text; a
/// function of the text alone.
pub uninterp spec fn xml_events_of(text: Seq<char>) -> Seq<XmlEvent>;

/// Relies on xml's EventReader (from_str and its event iterator): the
/// event stream for the text, a function of the text alone. Start and end
/// tags keep their local names and attribute name/value pairs; document
/// events, character data and the like are kept as placeholders, a parse
/// error as `Malformed`. The iterator stops after the first error or the
/// document's end, so the stream is finite.
#[verifier::external_body]
fn read_xml_events(text: &str) -> (r: Vec<XmlEvent>)
    ensures
        r@ == xml_events_of(text@),
{
    xml::reader::EventReader::from_str(text)
        .into_iter()
        .map(|event| match event {
            Ok(xml::reader::XmlEvent::StartElement { name, attributes, .. }) => (
            XmlEvent::ElementStart {
                name: name.local_name,
                attrs: attributes.into_iter().map(|a| (a.name.local_name, a.value)).collect(),
            }),
            Ok(xml::reader::XmlEvent::EndElement { name }) => (XmlEvent::ElementEnd {
                name: name.local_name,
            }),
            Ok(_) => XmlEvent::Other,
            Err(_) => XmlEvent::Malformed,
        })
        .collect()
}

/// The accumulator of the extraction pass.
pub struct CapabilityScan {
    pub current_profile_token: String,
    pub in_ptz_configuration: bool,
    pub pending_movements: Vec<MovementKind>,
    pub pending_zoom: Vec<MovementKind>,
}

/// The mathematical value of a `CapabilityScan`.
pub struct ScanState {
    pub token: Seq<char>,
    pub in_cfg: bool,
    pub movements: Seq<MovementKind>,
    pub zoom: Seq<MovementKind>,
}

impl View for CapabilityScan {
    type V = ScanState;

    open spec fn view(&self) -> ScanState {
        ScanState {
            token: self.current_profile_token@,
            in_cfg: self.in_ptz_configuration,
            movements: self.pending_movements@,
            zoom: self.pending_zoom@,
        }
    }
}

pub open spec fn spec_initial_state() -> ScanState {
    ScanState { token: Seq::empty(), in_cfg: false, movements: Seq::empty(), zoom: Seq::empty() }
}

/// The value of the `token` attribute after scanning `attrs` in order,
/// starting from `prev`: the last `token` attribute wins, and without one
/// the previous value stays.
pub open spec fn spec_token_attr(attrs: Seq<(String, String)>, prev: Seq<char>) -> Seq<char>
    decreases attrs.len(),
{
    if attrs.len() == 0 {
        prev
    } else if attrs.last().0@ == "token"@ {
        attrs.last().1@
    } else {
        spec_token_attr(attrs.drop_last(), prev)
    }
}

/// The six known ONVIF space-type markers, each mapped to its axis group
/// (`true` for zoom) and movement kind; any other name is ignored.
pub open spec fn spec_space_kind(name: Seq<char>) -> Option<(bool, MovementKind)> {
    if name == "DefaultAbsolutePantTiltPositionSpace"@ {
        Some((false, MovementKind::Absolute))
    } else if name == "DefaultRelativePanTiltTranslationSpace"@ {
        Some((false, MovementKind::Relative))
    } else if name == "DefaultContinuousPanTiltVelocitySpace"@ {
        Some((false, MovementKind::Continuous))
    } else if name == "DefaultAbsoluteZoomPositionSpace"@ {
        Some((true, MovementKind::Absolute))
    } else if name == "DefaultRelativeZoomTranslationSpace"@ {
        Some((true, MovementKind::Relative))
    } else if name == "DefaultContinuousZoomVelocitySpace"@ {
        Some((true, MovementKind::Continuous))
    } else {
        None
    }
}

/// Adds a kind unless it is already listed, so a repeated space-type
/// element never duplicates an entry.
pub open spec fn spec_add_kind(s: Seq<MovementKind>, kind: MovementKind) -> Seq<MovementKind> {
    if s.contains(kind) {
        s
    } else {
        s.push(kind)
    }
}

/// One step of the pass: the next state, and the capability entry the
/// step emits, if any. A `Profiles` start tag captures its token
/// attribute; a `PTZConfiguration` start tag opens a block with empty
/// pending sets; inside a block the known space-type markers accumulate;
/// a `PTZConfiguration` end tag emits the block's entry and resets.
pub open spec fn spec_scan_step(s: ScanState, event: XmlEvent) -> (ScanState, Option<
    CapabilitiesView,
>) {
    match event {
        XmlEvent::ElementStart { name, attrs } => {
            if name@ == "Profiles"@ {
                (
                    ScanState { token: spec_token_attr(attrs@, s.token), ..s },
                    None::<CapabilitiesView>,
                )
            } else if name@ == "PTZConfiguration"@ {
                (
                    ScanState { in_cfg: true, movements: Seq::empty(), zoom: Seq::empty(), ..s },
                    None::<CapabilitiesView>,
                )
            } else if s.in_cfg {
                match spec_space_kind(name@) {
                    Some((true, kind)) => (
                        ScanState { zoom: spec_add_kind(s.zoom, kind), ..s },
                        None::<CapabilitiesView>,
                    ),
                    Some((false, kind)) => (
                        ScanState { movements: spec_add_kind(s.movements, kind), ..s },
                        None::<CapabilitiesView>,
                    ),
                    None => (s, None::<CapabilitiesView>),
                }
            } else {
                (s, None::<CapabilitiesView>)
            }
        },
        XmlEvent::ElementEnd { name } => {
            if name@ == "PTZConfiguration"@ {
                (
                    ScanState { in_cfg: false, movements: Seq::empty(), zoom: Seq::empty(), ..s },
                    Some(
                        CapabilitiesView {
                            profile_token: s.token,
                            supported_movements: s.movements,
                            supported_zoom: s.zoom,
                        },
                    ),
                )
            } else {
                (s, None::<CapabilitiesView>)
            }
        },
        _ => (s, None::<CapabilitiesView>),
    }
}

/// The pass over a whole event stream: final state and emitted entries,
/// in document order.
pub open spec fn spec_scan(events: Seq<XmlEvent>) -> (ScanState, Seq<CapabilitiesView>)
    decreases events.len(),
{
    if events.len() == 0 {
        (spec_initial_state(), Seq::empty())
    } else {
        let prior = spec_scan(events.drop_last());
        let stepped = spec_scan_step(prior.0, events.last());
        (
            stepped.0,
            match stepped.1 {
                Some(entry) => prior.1.push(entry),
                None => prior.1,
            },
        )
    }
}

/// The capability entries a GetProfiles response's event stream carries.
pub open spec fn spec_capabilities_of(events: Seq<XmlEvent>) -> Seq<CapabilitiesView> {
    spec_scan(events).1
}

fn string_eq_lit(s: &String, lit: &str) -> (r: bool)
    ensures
        r == (s@ == lit@),
{
    let other: String = lit.to_owned();
    *s == other
}

fn copy_kinds(v: &Vec<MovementKind>) -> (r: Vec<MovementKind>)
    ensures
        r@ == v@,
{
    let mut r: Vec<MovementKind> = Vec::new();
    let mut i: usize = 0;
    while i < v.len()
        invariant
            i <= v.len(),
            r@ == v@.take(i as int),
        decreases v.len() - i,
    {
        r.push(v[i]);
        proof {
            assert(v@.take(i + 1).drop_last() =~= v@.take(i as int));
            assert(r@ =~= v@.take(i + 1));
        }
        i = i + 1;
    }
    proof {
        assert(v@.take(v@.len() as int) =~= v@);
    }
    r
}

fn add_kind(v: &mut Vec<MovementKind>, kind: MovementKind)
    ensures
        final(v)@ == spec_add_kind(old(v)@, kind),
{
    if !crate::ptz::contains_kind(v, kind) {
        v.push(kind);
    }
}

impl CapabilityScan {
    pub fn new() -> (r: CapabilityScan)
        ensures
            r@ == spec_initial_state(),
    {
        CapabilityScan {
            current_profile_token: String::new(),
            in_ptz_configuration: false,
            pending_movements: Vec::new(),
            pending_zoom: Vec::new(),
        }
    }

    fn capture_token_attr(&mut self, attrs: &Vec<(String, String)>)
        ensures
            final(self)@ == (ScanState {
                token: spec_token_attr(attrs@, old(self)@.token),
                ..old(self)@
            }),
    {
        let mut i: usize = 0;
        while i < attrs.len()
            invariant
                i <= attrs.len(),
                self@ == (ScanState {
                    token: spec_token_attr(attrs@.take(i as int), old(self)@.token),
                    ..old(self)@
                }),
            decreases attrs.len() - i,
        {
            if string_eq_lit(&attrs[i].0, "token") {
                self.current_profile_token = attrs[i].1.clone();
            }
            proof {
                assert(attrs@.take(i + 1).drop_last() =~= attrs@.take(i as int));
                assert(attrs@.take(i + 1).last() == attrs@[i as int]);
            }
            i = i + 1;
        }
        proof {
            assert(attrs@.take(attrs@.len() as int) =~= attrs@);
        }
    }

    /// Feeds one event; returns the capability entry it emits, if any.
    pub fn step(&mut self, event: &XmlEvent) -> (emitted: Option<PtzCapabilities>)
        ensures
            ({
                let stepped = spec_scan_step(old(self)@, *event);
                final(self)@ == stepped.0 && (match (emitted, stepped.1) {
                    (Some(entry), Some(entry_spec)) => entry@ == entry_spec,
                    (None, None) => true,
                    _ => false,
                })
            }),
    {
        match event {
            XmlEvent::ElementStart { name, attrs } => {
                if string_eq_lit(name, "Profiles") {
                    self.capture_token_attr(attrs);
                    None
                } else if string_eq_lit(name, "PTZConfiguration") {
                    self.in_ptz_configuration = true;
                    self.pending_movements = Vec::new();
                    self.pending_zoom = Vec::new();
                    None
                } else if self.in_ptz_configuration {
                    if string_eq_lit(name, "DefaultAbsolutePantTiltPositionSpace") {
                        add_kind(&mut self.pending_movements, MovementKind::Absolute);
                    } else if string_eq_lit(name, "DefaultRelativePanTiltTranslationSpace") {
                        add_kind(&mut self.pending_movements, MovementKind::Relative);
                    } else if string_eq_lit(name, "DefaultContinuousPanTiltVelocitySpace") {
                        add_kind(&mut self.pending_movements, MovementKind::Continuous);
                    } else if string_eq_lit(name, "DefaultAbsoluteZoomPositionSpace") {
                        add_kind(&mut self.pending_zoom, MovementKind::Absolute);
                    } else if string_eq_lit(name, "DefaultRelativeZoomTranslationSpace") {
                        add_kind(&mut self.pending_zoom, MovementKind::Relative);
                    } else if string_eq_lit(name, "DefaultContinuousZoomVelocitySpace") {
                        add_kind(&mut self.pending_zoom, MovementKind::Continuous);
                    }
                    None
                } else {
                    None
                }
            },
            XmlEvent::ElementEnd { name } => {
                if string_eq_lit(name, "PTZConfiguration") {
                    let entry = PtzCapabilities {
                        profile_token: self.current_profile_token.clone(),
                        supported_movements: copy_kinds(&self.pending_movements),
                        supported_zoom: copy_kinds(&self.pending_zoom),
                    };
                    self.in_ptz_configuration = false;
                    self.pending_movements = Vec::new();
                    self.pending_zoom = Vec::new();
                    Some(entry)
                } else {
                    None
                }
            },
            _ => None,
        }
    }
}

/// Runs the pass over a whole event vector.
pub fn extract_capabilities(events: &Vec<XmlEvent>) -> (r: Vec<PtzCapabilities>)
    ensures
        r@.map_values(|entry: PtzCapabilities| entry@) == spec_capabilities_of(events@),
{
    let mut scan = CapabilityScan::new();
    let mut out: Vec<PtzCapabilities> = Vec::new();
    let mut i: usize = 0;
    while i < events.len()
        invariant
            i <= events.len(),
            scan@ == spec_scan(events@.take(i as int)).0,
            out@.map_values(|entry: PtzCapabilities| entry@) == spec_scan(
                events@.take(i as int),
            ).1,
        decreases events.len() - i,
    {
        let emitted = scan.step(&events[i]);
        proof {
            assert(events@.take(i + 1).drop_last() =~= events@.take(i as int));
            assert(events@.take(i + 1).last() == events@[i as int]);
        }
        match emitted {
            Some(entry) => {
                out.push(entry);
                proof {
                    assert(out@.map_values(|entry: PtzCapabilities| entry@) =~= spec_scan(
                        events@.take(i + 1),
                    ).1);
                }
            },
            None => {},
        }
        i = i + 1;
    }
    proof {
        assert(events@.take(events@.len() as int) =~= events@);
    }
    out
}

/// Parses a GetProfiles response: the capability entries its XML carries,
/// one per `PTZConfiguration` block, in document order. Restartable: a
/// pure pass over the text.
pub fn parse_ptz_capabilities(xml_text: &str) -> (r: Vec<PtzCapabilities>)
    ensures
        r@.map_values(|entry: PtzCapabilities| entry@) == spec_capabilities_of(
            xml_events_of(xml_text@),
        ),
{
    let events = read_xml_events(xml_text);
    extract_capabilities(&events)
}

/// How many `PTZConfiguration` end tags a stream holds.
pub open spec fn spec_count_config_ends(events: Seq<XmlEvent>) -> nat
    decreases events.len(),
{
    if events.len() == 0 {
        0
    } else {
        spec_count_config_ends(events.drop_last()) + (match events.last() {
            XmlEvent::ElementEnd { name } => if name@ == "PTZConfiguration"@ {
                1nat
            } else {
                0nat
            },
            _ => 0nat,
        })
    }
}

/// Law: the pass emits exactly one entry per `PTZConfiguration` block —
/// so a stream with none of them (an empty response, or profiles without
/// a PTZ configuration) yields the empty sequence.
pub proof fn lemma_one_entry_per_configuration(events: Seq<XmlEvent>)
    ensures
        spec_capabilities_of(events).len() == spec_count_config_ends(events),
    decreases events.len(),
{
    if events.len() == 0 {
    } else {
        lemma_one_entry_per_configuration(events.drop_last());
    }
}

/// Law: every emitted entry's sets are duplicate-free, however often the
/// source XML repeats a space-type element.
pub proof fn lemma_capabilities_no_duplicates(events: Seq<XmlEvent>)
    ensures
        spec_scan(events).0.movements.no_duplicates(),
        spec_scan(events).0.zoom.no_duplicates(),
        forall|i: int|
            0 <= i < spec_capabilities_of(events).len() ==> (
            #[trigger] spec_capabilities_of(events)[i]).wf(),
    decreases events.len(),
{
    if events.len() == 0 {
    } else {
        lemma_capabilities_no_duplicates(events.drop_last());
        let prior = spec_scan(events.drop_last());
        lemma_add_kind_no_duplicates(prior.0.movements);
        lemma_add_kind_no_duplicates(prior.0.zoom);
        let stepped = spec_scan_step(prior.0, events.last());
        match stepped.1 {
            Some(entry) => {
                assert(entry.wf());
                assert(spec_capabilities_of(events) == prior.1.push(entry));
                assert forall|i: int|
                    0 <= i < spec_capabilities_of(events).len() implies (
                #[trigger] spec_capabilities_of(events)[i]).wf() by {
                    if i < prior.1.len() {
                        assert(spec_capabilities_of(events)[i] == spec_capabilities_of(
                            events.drop_last(),
                        )[i]);
                    }
                }
            },
            None => {
                assert(spec_capabilities_of(events) == prior.1);
                assert forall|i: int|
                    0 <= i < spec_capabilities_of(events).len() implies (
                #[trigger] spec_capabilities_of(events)[i]).wf() by {
                    assert(spec_capabilities_of(events)[i] == spec_capabilities_of(
                        events.drop_last(),
                    )[i]);
                }
            },
        }
    }
}

proof fn lemma_add_kind_no_duplicates(s: Seq<MovementKind>)
    requires
        s.no_duplicates(),
    ensures
        forall|kind: MovementKind| (#[trigger] spec_add_kind(s, kind)).no_duplicates(),
{
    assert forall|kind: MovementKind| (#[trigger] spec_add_kind(s, kind)).no_duplicates() by {
        if !s.contains(kind) {
            assert(forall|i: int| 0 <= i < s.len() ==> s[i] != kind);
        }
    }
}

} // verus!
