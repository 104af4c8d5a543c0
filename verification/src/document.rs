//! The config transform: building the daemon's startup configuration
//! document from a `Config`. The document is modelled as a typed value
//! whose shape mirrors the JSON the daemon consumes; every derived name,
//! cross-reference, index and fixed constant is pinned by `document_ok`.

use vstd::prelude::*;
use vstd::string::StringExecFns;
use crate::config::{Config, ConfigView, Service, ServiceView};
use crate::numfmt::{dec_seq, dec_string};

verus! {

/// One entry of the document's `services` section.
pub struct ServiceEntry {
    pub id: u32,
    pub ecc: u8,
    pub label: String,
    pub shortlabel: String,
}

/// One entry of the document's `subchannels` section.
pub struct SubchannelEntry {
    /// Content type; always "dabplus".
    pub kind: String,
    pub bitrate: u32,
    /// Sequential sub-channel index, 1-based, in service order.
    pub id: u32,
    pub protection: u8,
    /// Input transport scheme; always "edi".
    pub inputproto: String,
    /// Fixed-scheme locator at 127.0.0.1 on the service's input port.
    pub inputuri: String,
    /// Buffering policy; always "prebuffering".
    pub buffer_management: String,
    /// Buffer depth; always 40.
    pub buffer: u32,
    /// Prebuffer depth; always 20.
    pub prebuffering: u32,
}

/// One entry of the document's `components` section, linking a service
/// key to a sub-channel key.
pub struct ComponentEntry {
    pub service: String,
    pub subchannel: String,
    /// Declared user application; always "slideshow".
    pub userapp: String,
}

/// The document's `general` section.
pub struct GeneralSection {
    pub dabmode: u32,
    pub nbframes: u32,
    pub syslog: bool,
    pub tist: bool,
    pub tist_offset: i32,
    pub managementport: u16,
}

/// The document's `remotecontrol` section.
pub struct RemoteControlSection {
    pub telnetport: u16,
    pub zmqendpoint: String,
}

/// The document's `ensemble` section.
pub struct EnsembleSection {
    pub id: u16,
    pub ecc: u8,
    /// Always "auto".
    pub local_time_offset: String,
    /// Always "hash".
    pub reconfig_counter: String,
    pub label: String,
    pub shortlabel: String,
}

/// The document's `outputs` section: a simulated throttling output, a
/// messaging output, and one named streaming destination.
pub struct OutputsSection {
    /// Always "simul://".
    pub throttle: String,
    /// The messaging output's endpoint, bound on every interface.
    pub zmq_endpoint: String,
    /// Always false.
    pub zmq_allowmetadata: bool,
    /// Name of the single streaming destination; always "example_tcp".
    pub edi_destination: String,
    /// Always "tcp".
    pub edi_protocol: String,
    pub edi_listenport: u16,
}

/// The whole generated document. The three per-service sections are
/// ordered key/value maps over a single flat key space; the `srv-`,
/// `sub-` and `comp-` prefixes keep them from colliding.
pub struct DabmuxDocument {
    pub comment: String,
    pub general: GeneralSection,
    pub remotecontrol: RemoteControlSection,
    pub ensemble: EnsembleSection,
    pub services: Vec<(String, ServiceEntry)>,
    pub subchannels: Vec<(String, SubchannelEntry)>,
    pub components: Vec<(String, ComponentEntry)>,
    pub outputs: OutputsSection,
}

/// The `services` entry derived from service `s`.
pub open spec fn service_entry_ok(s: ServiceView, e: ServiceEntry) -> bool {
    &&& e.id == s.sid
    &&& e.ecc == s.ecc
    &&& e.label@ == s.label
    &&& e.shortlabel@ == s.shortlabel
}

/// The `subchannels` entry derived from service `s` at 1-based index
/// `idx`.
pub open spec fn subchannel_entry_ok(s: ServiceView, idx: int, e: SubchannelEntry) -> bool {
    &&& e.kind@ == "dabplus"@
    &&& e.bitrate == s.bitrate
    &&& e.id == idx
    &&& e.protection == s.protection
    &&& e.inputproto@ == "edi"@
    &&& e.inputuri@ == "tcp://127.0.0.1:"@ + dec_seq(s.input_port as int)
    &&& e.buffer_management@ == "prebuffering"@
    &&& e.buffer == 40
    &&& e.prebuffering == 20
}

/// The `components` entry derived from service `s`.
pub open spec fn component_entry_ok(s: ServiceView, e: ComponentEntry) -> bool {
    &&& e.service@ == "srv-"@ + s.unique_id
    &&& e.subchannel@ == "sub-"@ + s.unique_id
    &&& e.userapp@ == "slideshow"@
}

/// The whole document derived from configuration `c` at generation time
/// `now`.
pub open spec fn document_ok(c: ConfigView, now: Seq<char>, d: DabmuxDocument) -> bool {
    let n = c.services.len() as int;
    &&& d.comment@ == "Generated at "@ + now + " by odr-dabmux-gui"@
    &&& d.general.dabmode == 1
    &&& d.general.nbframes == 0
    &&& !d.general.syslog
    &&& d.general.tist == c.tist
    &&& d.general.tist_offset == c.tist_offset
    &&& d.general.managementport == 12720
    &&& d.remotecontrol.telnetport == 12721
    &&& d.remotecontrol.zmqendpoint@ == "tcp://lo:12722"@
    &&& d.ensemble.id == c.ensemble_id
    &&& d.ensemble.ecc == c.ensemble_ecc
    &&& d.ensemble.local_time_offset@ == "auto"@
    &&& d.ensemble.reconfig_counter@ == "hash"@
    &&& d.ensemble.label@ == c.ensemble_label
    &&& d.ensemble.shortlabel@ == c.ensemble_shortlabel
    &&& d.services@.len() == n
    &&& d.subchannels@.len() == n
    &&& d.components@.len() == n
    &&& forall|i: int| 0 <= i < n ==> {
        &&& (#[trigger] d.services@[i]).0@ == "srv-"@ + c.services[i].unique_id
        &&& service_entry_ok(c.services[i], d.services@[i].1)
    }
    &&& forall|i: int| 0 <= i < n ==> {
        &&& (#[trigger] d.subchannels@[i]).0@ == "sub-"@ + c.services[i].unique_id
        &&& subchannel_entry_ok(c.services[i], i + 1, d.subchannels@[i].1)
    }
    &&& forall|i: int| 0 <= i < n ==> {
        &&& (#[trigger] d.components@[i]).0@ == "comp-"@ + c.services[i].unique_id
        &&& component_entry_ok(c.services[i], d.components@[i].1)
    }
    &&& d.outputs.throttle@ == "simul://"@
    &&& d.outputs.zmq_endpoint@ == "tcp://*:"@ + dec_seq(c.output_zmq_port as int)
    &&& !d.outputs.zmq_allowmetadata
    &&& d.outputs.edi_destination@ == "example_tcp"@
    &&& d.outputs.edi_protocol@ == "tcp"@
    &&& d.outputs.edi_listenport == c.output_edi_port
}

/// Equality of two `subchannels` entries on every field but the
/// sequential index.
pub open spec fn subchannel_entry_same_but_id(a: SubchannelEntry, b: SubchannelEntry) -> bool {
    &&& a.kind@ == b.kind@
    &&& a.bitrate == b.bitrate
    &&& a.protection == b.protection
    &&& a.inputproto@ == b.inputproto@
    &&& a.inputuri@ == b.inputuri@
    &&& a.buffer_management@ == b.buffer_management@
    &&& a.buffer == b.buffer
    &&& a.prebuffering == b.prebuffering
}

/// The `service` and `subchannel` references of the `components` entry
/// at position `i` both name keys present in the `services` and
/// `subchannels` sections respectively.
pub open spec fn component_references_resolve(d: DabmuxDocument, i: int) -> bool {
    &&& exists|j: int|
        0 <= j < d.services@.len() && (#[trigger] d.services@[j].0@)
            == d.components@[i].1.service@
    &&& exists|j: int|
        0 <= j < d.subchannels@.len() && (#[trigger] d.subchannels@[j].0@)
            == d.components@[i].1.subchannel@
}

/// Law: for a configuration with N services, the generated document's
/// `services`, `subchannels` and `components` sections each hold exactly
/// N entries, keyed `srv-`, `sub-` and `comp-` prefixed with the
/// services' unique identifiers, and every `components` entry's
/// `service` and `subchannel` references resolve to keys present in the
/// other two sections.
pub proof fn lemma_document_sections(c: ConfigView, now: Seq<char>, d: DabmuxDocument)
    requires
        document_ok(c, now, d),
    ensures
        d.services@.len() == c.services.len(),
        d.subchannels@.len() == c.services.len(),
        d.components@.len() == c.services.len(),
        forall|i: int| 0 <= i < c.services.len() ==> {
            &&& (#[trigger] d.services@[i]).0@ == "srv-"@ + c.services[i].unique_id
            &&& d.subchannels@[i].0@ == "sub-"@ + c.services[i].unique_id
            &&& d.components@[i].0@ == "comp-"@ + c.services[i].unique_id
        },
        forall|i: int| 0 <= i < c.services.len() ==> component_references_resolve(d, i),
{
    assert forall|i: int| 0 <= i < c.services.len() implies component_references_resolve(
        d,
        i,
    ) by {
        assert(0 <= i < d.services@.len() && d.services@[i].0@ == d.components@[i].1.service@);
        assert(0 <= i < d.subchannels@.len() && d.subchannels@[i].0@ == d.components@[
            i
        ].1.subchannel@);
    }
}

/// Law: the three per-service sections share one flat key space, and
/// the `srv-`, `sub-` and `comp-` prefixes keep them apart: a key of one
/// section never equals a key of another, and within a section two keys
/// coincide only when the services' unique identifiers do.
pub proof fn lemma_key_namespaces(
    c: ConfigView, now: Seq<char>, d: DabmuxDocument, i: int, j: int,
)
    requires
        document_ok(c, now, d),
        0 <= i < c.services.len(),
        0 <= j < c.services.len(),
    ensures
        d.services@[i].0@ != d.subchannels@[j].0@,
        d.services@[i].0@ != d.components@[j].0@,
        d.subchannels@[i].0@ != d.components@[j].0@,
        d.services@[i].0@ == d.services@[j].0@ ==> c.services[i].unique_id
            == c.services[j].unique_id,
        d.subchannels@[i].0@ == d.subchannels@[j].0@ ==> c.services[i].unique_id
            == c.services[j].unique_id,
        d.components@[i].0@ == d.components@[j].0@ ==> c.services[i].unique_id
            == c.services[j].unique_id,
{
    reveal_strlit("srv-");
    reveal_strlit("sub-");
    reveal_strlit("comp-");
    let ui = c.services[i].unique_id;
    let uj = c.services[j].unique_id;
    assert(("srv-"@ + ui)[1] == 'r');
    assert(("sub-"@ + uj)[1] == 'u');
    assert(("srv-"@ + ui)[0] == 's');
    assert(("comp-"@ + uj)[0] == 'c');
    assert(("sub-"@ + ui)[0] == 's');
    if d.services@[i].0@ == d.services@[j].0@ {
        assert(("srv-"@ + ui).skip(4) =~= ui);
        assert(("srv-"@ + uj).skip(4) =~= uj);
    }
    if d.subchannels@[i].0@ == d.subchannels@[j].0@ {
        assert(("sub-"@ + ui).skip(4) =~= ui);
        assert(("sub-"@ + uj).skip(4) =~= uj);
    }
    if d.components@[i].0@ == d.components@[j].0@ {
        assert(("comp-"@ + ui).skip(5) =~= ui);
        assert(("comp-"@ + uj).skip(5) =~= uj);
    }
}

/// Law: sub-channel numeric indices are exactly 1..N, assigned strictly
/// in service-sequence order. If the same service stands at position `i`
/// of one configuration and position `j` of another, its sub-channel
/// entries in the two generated documents agree on the key and on every
/// field but the index, and the indices are `i + 1` and `j + 1`.
pub proof fn lemma_subchannel_indices(
    c1: ConfigView, now1: Seq<char>, d1: DabmuxDocument,
    c2: ConfigView, now2: Seq<char>, d2: DabmuxDocument,
    i: int, j: int,
)
    requires
        document_ok(c1, now1, d1),
        document_ok(c2, now2, d2),
        0 <= i < c1.services.len(),
        0 <= j < c2.services.len(),
        c1.services[i] == c2.services[j],
    ensures
        d1.subchannels@[i].1.id == i + 1,
        d2.subchannels@[j].1.id == j + 1,
        d1.subchannels@[i].0@ == d2.subchannels@[j].0@,
        subchannel_entry_same_but_id(d1.subchannels@[i].1, d2.subchannels@[j].1),
{
}

/// A key prefixed from a service's unique identifier.
fn prefixed_key(prefix: &str, unique_id: &String) -> (r: String)
    ensures
        r@ == prefix@ + unique_id@,
{
    prefix.to_owned().concat(unique_id.as_str())
}

impl Service {
    /// The document's `services` entry for this service.
    pub fn dump_to_service_json(&self) -> (r: ServiceEntry)
        ensures
            service_entry_ok(self@, r),
    {
        ServiceEntry {
            id: self.sid,
            ecc: self.ecc,
            label: self.label.clone(),
            shortlabel: self.shortlabel.clone(),
        }
    }

    /// The document's `subchannels` entry for this service, under
    /// sequential sub-channel index `id`.
    pub fn dump_to_subchannel_json(&self, id: u32) -> (r: SubchannelEntry)
        ensures
            subchannel_entry_ok(self@, id as int, r),
    {
        SubchannelEntry {
            kind: "dabplus".to_owned(),
            bitrate: self.bitrate,
            id,
            protection: self.protection,
            inputproto: "edi".to_owned(),
            inputuri: "tcp://127.0.0.1:".to_owned().concat(
                dec_string(self.input_port as u32).as_str(),
            ),
            buffer_management: "prebuffering".to_owned(),
            buffer: 40,
            prebuffering: 20,
        }
    }
}

/// Builds the daemon's startup configuration document from `c`, stamped
/// with generation time `now`. Purely derives the document value; writing
/// it out is the caller's affair.
pub fn build_document(c: &Config, now: &str) -> (d: DabmuxDocument)
    requires
        c.services@.len() <= u32::MAX,
    ensures
        document_ok(c@, now@, d),
{
    let n = c.services.len();

    let mut services: Vec<(String, ServiceEntry)> = Vec::new();
    let mut i: usize = 0;
    while i < n
        invariant
            n == c.services.len(),
            i <= n,
            services@.len() == i as int,
            forall|j: int| 0 <= j < i as int ==> {
                &&& (#[trigger] services@[j]).0@ == "srv-"@ + c@.services[j].unique_id
                &&& service_entry_ok(c@.services[j], services@[j].1)
            },
        decreases n - i
    {
        let s = &c.services[i];
        let entry = s.dump_to_service_json();
        services.push((prefixed_key("srv-", &s.unique_id), entry));
        i = i + 1;
    }

    let mut subchannels: Vec<(String, SubchannelEntry)> = Vec::new();
    let mut i: usize = 0;
    while i < n
        invariant
            n == c.services.len(),
            i <= n,
            n <= u32::MAX,
            subchannels@.len() == i as int,
            forall|j: int| 0 <= j < i as int ==> {
                &&& (#[trigger] subchannels@[j]).0@ == "sub-"@ + c@.services[j].unique_id
                &&& subchannel_entry_ok(c@.services[j], j + 1, subchannels@[j].1)
            },
        decreases n - i
    {
        let s = &c.services[i];
        let entry = s.dump_to_subchannel_json((i as u32) + 1);
        subchannels.push((prefixed_key("sub-", &s.unique_id), entry));
        i = i + 1;
    }

    let mut components: Vec<(String, ComponentEntry)> = Vec::new();
    let mut i: usize = 0;
    while i < n
        invariant
            n == c.services.len(),
            i <= n,
            components@.len() == i as int,
            forall|j: int| 0 <= j < i as int ==> {
                &&& (#[trigger] components@[j]).0@ == "comp-"@ + c@.services[j].unique_id
                &&& component_entry_ok(c@.services[j], components@[j].1)
            },
        decreases n - i
    {
        let s = &c.services[i];
        let entry = ComponentEntry {
            service: prefixed_key("srv-", &s.unique_id),
            subchannel: prefixed_key("sub-", &s.unique_id),
            userapp: "slideshow".to_owned(),
        };
        components.push((prefixed_key("comp-", &s.unique_id), entry));
        i = i + 1;
    }

    DabmuxDocument {
        comment: "Generated at ".to_owned().concat(now).concat(" by odr-dabmux-gui"),
        general: GeneralSection {
            dabmode: 1,
            nbframes: 0,
            syslog: false,
            tist: c.tist,
            tist_offset: c.tist_offset,
            managementport: 12720,
        },
        remotecontrol: RemoteControlSection {
            telnetport: 12721,
            zmqendpoint: "tcp://lo:12722".to_owned(),
        },
        ensemble: EnsembleSection {
            id: c.ensemble_id,
            ecc: c.ensemble_ecc,
            local_time_offset: "auto".to_owned(),
            reconfig_counter: "hash".to_owned(),
            label: c.ensemble_label.clone(),
            shortlabel: c.ensemble_shortlabel.clone(),
        },
        services,
        subchannels,
        components,
        outputs: OutputsSection {
            throttle: "simul://".to_owned(),
            zmq_endpoint: "tcp://*:".to_owned().concat(dec_string(c.output_zmq_port as u32).as_str()),
            zmq_allowmetadata: false,
            edi_destination: "example_tcp".to_owned(),
            edi_protocol: "tcp".to_owned(),
            edi_listenport: c.output_edi_port,
        },
    }
}

/// Relies on `chrono::Utc::now` and `DateTime::to_rfc3339` for the
/// generation timestamp; the result depends on the clock, so nothing is
/// promised of it.
#[verifier::external_body]
fn now_rfc3339() -> String {
    chrono::Utc::now().to_rfc3339()
}

/// Builds the startup document from `c`, stamped with the current time.
pub fn dabmux_document(c: &Config) -> (d: DabmuxDocument)
    requires
        c.services@.len() <= u32::MAX,
    ensures
        exists|now: Seq<char>| document_ok(c@, now, d),
{
    let now = now_rfc3339();
    let d = build_document(c, now.as_str());
    proof {
        assert(document_ok(c@, now@, d));
    }
    d
}

} // verus!
