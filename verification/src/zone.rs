//! Conversion of a simplified, human-authored zone description into a
//! wire-format DNS record-set payload.
//!
//! A synthetic SOA preamble is prepended so the author need not write
//! one; the text is scanned by an external zone-file parser; every
//! record other than the synthetic SOA is kept, and the supported record
//! types are encoded, one by one, into a single compressed DNS reply
//! packet by an external DNS encoder.

use vstd::prelude::*;
use vstd::string::StringExecFns;

use domain::rdata::ZoneRecordData;
use domain::zonefile::inplace::Entry;
use domain::zonefile::inplace::Error as ZoneScanFault;
use domain::zonefile::inplace::Zonefile;

verus! {

/// The time-to-live written on every encoded record, in seconds.
pub const RECORD_TTL: u32 = 3600;

/// Why reading a zone description failed.
#[derive(Debug)]
pub enum ZoneError {
    /// The zone text could not be scanned.
    Parse,
    /// The zone holds a record of a type this conversion does not handle.
    Unsupported,
    /// A record could not be encoded into the packet.
    Encode,
}

/// The mathematical content of a record's data.
pub ghost enum RecordDataView {
    A(u32),
    Aaaa(u128),
    Ns(Seq<char>),
    Txt(Seq<char>),
    Mx(u16, Seq<char>),
    Soa,
    Unsupported,
}

/// The data of one zone record, as plain values: an IPv4 address as a
/// big-endian integer, an IPv6 address likewise, a name server or mail
/// exchange target as text, or a text record's content. The synthetic
/// SOA preamble and every record type this conversion does not handle
/// keep only their kind.
#[derive(Debug)]
pub enum RecordData {
    A(u32),
    Aaaa(u128),
    Ns(String),
    Txt(String),
    Mx(u16, String),
    Soa,
    Unsupported,
}

impl View for RecordData {
    type V = RecordDataView;

    open spec fn view(&self) -> RecordDataView {
        match self {
            RecordData::A(x) => RecordDataView::A(*x),
            RecordData::Aaaa(x) => RecordDataView::Aaaa(*x),
            RecordData::Ns(s) => RecordDataView::Ns(s@),
            RecordData::Txt(s) => RecordDataView::Txt(s@),
            RecordData::Mx(p, s) => RecordDataView::Mx(*p, s@),
            RecordData::Soa => RecordDataView::Soa,
            RecordData::Unsupported => RecordDataView::Unsupported,
        }
    }
}

impl Clone for RecordData {
    fn clone(&self) -> (r: Self)
        ensures
            r@ == self@,
    {
        match self {
            RecordData::A(x) => RecordData::A(*x),
            RecordData::Aaaa(x) => RecordData::Aaaa(*x),
            RecordData::Ns(s) => RecordData::Ns(s.clone()),
            RecordData::Txt(s) => RecordData::Txt(s.clone()),
            RecordData::Mx(p, s) => RecordData::Mx(*p, s.clone()),
            RecordData::Soa => RecordData::Soa,
            RecordData::Unsupported => RecordData::Unsupported,
        }
    }
}

/// The mathematical content of one zone record.
#[verifier::ext_equal]
pub ghost struct ZoneRecordView {
    pub owner: Seq<char>,
    pub data: RecordDataView,
}

/// One record of the zone: its owner name as text, and its data.
#[derive(Debug)]
pub struct ZoneRecord {
    pub owner: String,
    pub data: RecordData,
}

impl View for ZoneRecord {
    type V = ZoneRecordView;

    open spec fn view(&self) -> ZoneRecordView {
        ZoneRecordView { owner: self.owner@, data: self.data@ }
    }
}

impl Clone for ZoneRecord {
    fn clone(&self) -> (r: Self)
        ensures
            r@ == self@,
    {
        ZoneRecord { owner: self.owner.clone(), data: self.data.clone() }
    }
}

/// One scanned entry of the zone text, in library terms.
#[derive(Debug)]
pub enum ZoneItem {
    /// A DNS record.
    Record(ZoneRecord),
    /// An include directive; skipped by this conversion.
    Include,
    /// The scanner failed on this entry; nothing further can be read.
    Malformed,
}

/// Record types the encoding step handles.
pub open spec fn spec_supported(rec: ZoneRecord) -> bool {
    match rec.data {
        RecordData::A(_) => true,
        RecordData::Aaaa(_) => true,
        RecordData::Ns(_) => true,
        RecordData::Txt(_) => true,
        RecordData::Mx(_, _) => true,
        RecordData::Soa => false,
        RecordData::Unsupported => false,
    }
}

/// What the external zone-file scanner yields for a text: a function of
/// the text alone.
pub uninterp spec fn zone_scan(text: Seq<char>) -> Seq<ZoneItem>;

/// The entries a scanner value will still yield.
pub uninterp spec fn zone_items(z: Zonefile) -> Seq<ZoneItem>;

/// Whether a scanner value may still be read. A fresh scanner is live;
/// a scan error invalidates the scanner, and the external parser
/// withdraws any further read on it.
pub uninterp spec fn zone_scan_live(z: Zonefile) -> bool;

#[verifier::external_type_specification]
#[verifier::external_body]
pub struct ExZonefile(Zonefile);

#[verifier::external_type_specification]
#[verifier::external_body]
pub struct ExEntry(Entry);

#[verifier::external_type_specification]
#[verifier::external_body]
pub struct ExZoneScanFault(ZoneScanFault);

/// Relies on domain's `Zonefile::from(&str)`: building a scanner from a
/// text cannot fail, the fresh scanner is live, and what it will yield
/// depends on the text alone.
#[verifier::external_body]
fn zonefile_from_text(text: &str) -> (r: Zonefile)
    ensures
        zone_items(r) == zone_scan(text@),
        zone_scan_live(r),
{
    Zonefile::from(text)
}

/// Relies on domain's `Zonefile::next_entry`: on a live scanner it
/// yields the scanned entries in order, `None` at the end, and an error
/// entry when scanning fails. A scan error leaves the scanner in an
/// invalid state on which the external parser withdraws any further
/// read, so nothing is promised of the scanner after an error entry,
/// and only a live scanner may be read at all.
#[verifier::external_body]
fn next_zone_item(z: &mut Zonefile) -> (r: Option<ZoneItem>)
    requires
        zone_scan_live(*old(z)),
    ensures
        zone_items(*old(z)).len() == 0 ==> r is None && zone_items(*final(z)) == zone_items(
            *old(z),
        ) && zone_scan_live(*final(z)),
        zone_items(*old(z)).len() > 0 ==> r == Some(zone_items(*old(z))[0]),
        zone_items(*old(z)).len() > 0 && !(zone_items(*old(z))[0] is Malformed) ==> zone_items(
            *final(z),
        ) == zone_items(*old(z)).drop_first() && zone_scan_live(*final(z)),
{
    match z.next_entry() {
        Err(_) => Some(ZoneItem::Malformed),
        Ok(None) => None,
        Ok(Some(e)) => Some(convert_entry(e)),
    }
}

/// Relies on domain's record accessors: translates one scanned entry,
/// variant for variant, into plain values.
#[verifier::external_body]
fn convert_entry(e: Entry) -> (r: ZoneItem) {
    let record = match e {
        Entry::Include { .. } => return ZoneItem::Include,
        Entry::Record(record) => record,
    };
    let (owner, data) = record.into_owner_and_data();
    let data = match data {
        ZoneRecordData::A(v) => RecordData::A(v.addr().into()),
        ZoneRecordData::Aaaa(v) => RecordData::Aaaa(v.addr().into()),
        ZoneRecordData::Ns(v) => RecordData::Ns(v.to_string()),
        ZoneRecordData::Txt(v) => RecordData::Txt(v.to_string()),
        ZoneRecordData::Mx(v) => RecordData::Mx(v.preference(), v.exchange().to_string()),
        ZoneRecordData::Soa(_) => RecordData::Soa,
        _ => RecordData::Unsupported,
    };
    ZoneItem::Record(ZoneRecord { owner: owner.to_string(), data })
}

/// The bytes of an empty compressed DNS reply packet with the given id.
pub uninterp spec fn spec_empty_reply(id: u16) -> Seq<u8>;

/// Bytes of the shape the external codec's own builder emits. Its
/// parser is not safe on arbitrary bytes (a malformed compression
/// pointer can make it read out of bounds), so every append demands a
/// packet of this shape and every build yields one.
pub uninterp spec fn spec_wire_packet(b: Seq<u8>) -> bool;

/// Whether the external encoder builds the empty reply packet.
pub uninterp spec fn spec_empty_reply_ok(id: u16) -> bool;

/// Whether the external encoder accepts appending an A record.
pub uninterp spec fn spec_append_a_ok(acc: Seq<u8>, owner: Seq<char>, ttl: u32, address: u32) -> bool;

/// Whether the external encoder accepts appending an AAAA record.
pub uninterp spec fn spec_append_aaaa_ok(acc: Seq<u8>, owner: Seq<char>, ttl: u32, address: u128) -> bool;

/// Whether the external encoder accepts appending an NS record.
pub uninterp spec fn spec_append_ns_ok(acc: Seq<u8>, owner: Seq<char>, ttl: u32, target: Seq<char>) -> bool;

/// Whether the external encoder accepts appending a TXT record.
pub uninterp spec fn spec_append_txt_ok(acc: Seq<u8>, owner: Seq<char>, ttl: u32, text: Seq<char>) -> bool;

/// Whether the external encoder accepts appending an MX record.
pub uninterp spec fn spec_append_mx_ok(
    acc: Seq<u8>,
    owner: Seq<char>,
    ttl: u32,
    preference: u16,
    exchange: Seq<char>,
) -> bool;

/// A packet with an A record appended.
pub uninterp spec fn spec_append_a(acc: Seq<u8>, owner: Seq<char>, ttl: u32, address: u32) -> Seq<
    u8,
>;

/// A packet with an AAAA record appended.
pub uninterp spec fn spec_append_aaaa(
    acc: Seq<u8>,
    owner: Seq<char>,
    ttl: u32,
    address: u128,
) -> Seq<u8>;

/// A packet with an NS record appended.
pub uninterp spec fn spec_append_ns(
    acc: Seq<u8>,
    owner: Seq<char>,
    ttl: u32,
    target: Seq<char>,
) -> Seq<u8>;

/// A packet with a TXT record appended.
pub uninterp spec fn spec_append_txt(
    acc: Seq<u8>,
    owner: Seq<char>,
    ttl: u32,
    text: Seq<char>,
) -> Seq<u8>;

/// A packet with an MX record appended.
pub uninterp spec fn spec_append_mx(
    acc: Seq<u8>,
    owner: Seq<char>,
    ttl: u32,
    preference: u16,
    exchange: Seq<char>,
) -> Seq<u8>;

/// Relies on simple-dns `Packet::new_reply` and
/// `Packet::build_bytes_vec_compressed`: whether the build succeeds and
/// the bytes it yields depend on the id alone.
#[verifier::external_body]
fn empty_reply_packet(id: u16) -> (r: Result<Vec<u8>, ZoneError>)
    ensures
        r matches Ok(b) ==> b@ == spec_empty_reply(id),
        r matches Ok(b) ==> spec_wire_packet(b@),
        r is Ok <==> spec_empty_reply_ok(id),
        r matches Err(e) ==> e is Encode,
{
    simple_dns::Packet::new_reply(id).build_bytes_vec_compressed().map_err(|_| ZoneError::Encode)
}

/// Relies on simple-dns `Packet::parse`, `ResourceRecord::new` and
/// `Packet::build_bytes_vec_compressed`: whether re-encoding a packet
/// with one more A record succeeds, and the bytes it yields, depend on
/// the arguments alone. The accumulated packet must be the codec's own
/// builder output: the parser is not safe on arbitrary bytes.
#[verifier::external_body]
fn append_a_record(acc: &Vec<u8>, owner: &str, ttl: u32, address: u32) -> (r: Result<
    Vec<u8>,
    ZoneError,
>)
    requires
        spec_wire_packet(acc@),
    ensures
        r matches Ok(b) ==> b@ == spec_append_a(acc@, owner@, ttl, address),
        r matches Ok(b) ==> spec_wire_packet(b@),
        r is Ok <==> spec_append_a_ok(acc@, owner@, ttl, address),
        r matches Err(e) ==> e is Encode,
{
    let mut packet = simple_dns::Packet::parse(acc).map_err(|_| ZoneError::Encode)?;
    let name = simple_dns::Name::try_from(owner).map_err(|_| ZoneError::Encode)?;
    let rdata = simple_dns::rdata::RData::A(simple_dns::rdata::A { address });
    packet.answers.push(simple_dns::ResourceRecord::new(name, simple_dns::CLASS::IN, ttl, rdata));
    packet.build_bytes_vec_compressed().map_err(|_| ZoneError::Encode)
}

/// Relies on the same simple-dns calls as [`append_a_record`], for AAAA;
/// the same shape is demanded of the accumulated packet.
#[verifier::external_body]
fn append_aaaa_record(acc: &Vec<u8>, owner: &str, ttl: u32, address: u128) -> (r: Result<
    Vec<u8>,
    ZoneError,
>)
    requires
        spec_wire_packet(acc@),
    ensures
        r matches Ok(b) ==> b@ == spec_append_aaaa(acc@, owner@, ttl, address),
        r matches Ok(b) ==> spec_wire_packet(b@),
        r is Ok <==> spec_append_aaaa_ok(acc@, owner@, ttl, address),
        r matches Err(e) ==> e is Encode,
{
    let mut packet = simple_dns::Packet::parse(acc).map_err(|_| ZoneError::Encode)?;
    let name = simple_dns::Name::try_from(owner).map_err(|_| ZoneError::Encode)?;
    let rdata = simple_dns::rdata::RData::AAAA(simple_dns::rdata::AAAA { address });
    packet.answers.push(simple_dns::ResourceRecord::new(name, simple_dns::CLASS::IN, ttl, rdata));
    packet.build_bytes_vec_compressed().map_err(|_| ZoneError::Encode)
}

/// Relies on the same simple-dns calls as [`append_a_record`], for NS;
/// the same shape is demanded of the accumulated packet.
#[verifier::external_body]
fn append_ns_record(acc: &Vec<u8>, owner: &str, ttl: u32, target: &str) -> (r: Result<
    Vec<u8>,
    ZoneError,
>)
    requires
        spec_wire_packet(acc@),
    ensures
        r matches Ok(b) ==> b@ == spec_append_ns(acc@, owner@, ttl, target@),
        r matches Ok(b) ==> spec_wire_packet(b@),
        r is Ok <==> spec_append_ns_ok(acc@, owner@, ttl, target@),
        r matches Err(e) ==> e is Encode,
{
    let mut packet = simple_dns::Packet::parse(acc).map_err(|_| ZoneError::Encode)?;
    let name = simple_dns::Name::try_from(owner).map_err(|_| ZoneError::Encode)?;
    let ns = simple_dns::rdata::NS(simple_dns::Name::try_from(target).map_err(|_| ZoneError::Encode)?);
    packet.answers.push(
        simple_dns::ResourceRecord::new(name, simple_dns::CLASS::IN, ttl, simple_dns::rdata::RData::NS(ns)),
    );
    packet.build_bytes_vec_compressed().map_err(|_| ZoneError::Encode)
}

/// Relies on the same simple-dns calls as [`append_a_record`], plus
/// `TXT::add_string`, for TXT; the same shape is demanded of the
/// accumulated packet.
#[verifier::external_body]
fn append_txt_record(acc: &Vec<u8>, owner: &str, ttl: u32, text: &str) -> (r: Result<
    Vec<u8>,
    ZoneError,
>)
    requires
        spec_wire_packet(acc@),
    ensures
        r matches Ok(b) ==> b@ == spec_append_txt(acc@, owner@, ttl, text@),
        r matches Ok(b) ==> spec_wire_packet(b@),
        r is Ok <==> spec_append_txt_ok(acc@, owner@, ttl, text@),
        r matches Err(e) ==> e is Encode,
{
    let mut packet = simple_dns::Packet::parse(acc).map_err(|_| ZoneError::Encode)?;
    let name = simple_dns::Name::try_from(owner).map_err(|_| ZoneError::Encode)?;
    let mut txt = simple_dns::rdata::TXT::new();
    txt.add_string(text).map_err(|_| ZoneError::Encode)?;
    packet.answers.push(
        simple_dns::ResourceRecord::new(name, simple_dns::CLASS::IN, ttl, simple_dns::rdata::RData::TXT(txt)),
    );
    packet.build_bytes_vec_compressed().map_err(|_| ZoneError::Encode)
}

/// Relies on the same simple-dns calls as [`append_a_record`], for MX;
/// the same shape is demanded of the accumulated packet.
#[verifier::external_body]
fn append_mx_record(acc: &Vec<u8>, owner: &str, ttl: u32, preference: u16, exchange: &str) -> (r:
    Result<Vec<u8>, ZoneError>)
    requires
        spec_wire_packet(acc@),
    ensures
        r matches Ok(b) ==> b@ == spec_append_mx(acc@, owner@, ttl, preference, exchange@),
        r matches Ok(b) ==> spec_wire_packet(b@),
        r is Ok <==> spec_append_mx_ok(acc@, owner@, ttl, preference, exchange@),
        r matches Err(e) ==> e is Encode,
{
    let mut packet = simple_dns::Packet::parse(acc).map_err(|_| ZoneError::Encode)?;
    let name = simple_dns::Name::try_from(owner).map_err(|_| ZoneError::Encode)?;
    let mx = simple_dns::rdata::MX {
        preference,
        exchange: simple_dns::Name::try_from(exchange).map_err(|_| ZoneError::Encode)?,
    };
    packet.answers.push(
        simple_dns::ResourceRecord::new(name, simple_dns::CLASS::IN, ttl, simple_dns::rdata::RData::MX(mx)),
    );
    packet.build_bytes_vec_compressed().map_err(|_| ZoneError::Encode)
}

/// The synthetic SOA preamble for a zone owned by `pubkey`.
pub open spec fn spec_soa_text(pubkey: Seq<char>) -> Seq<char> {
    ("$ORIGIN ")@ + pubkey + (
    ". \n$TTL 86400 \n@\tIN\tSOA\t127.0.0.1.\thostmaster.example.com. (\n\t\t\t2001062501 ; serial\n\t\t\t21600      ; refresh after 6 hours\n\t\t\t3600       ; retry after 1 hour\n\t\t\t604800     ; expire after 1 week\n\t\t\t86400 )    ; minimum TTL of 1 day\n")@
}

/// The full text handed to the scanner: the SOA preamble, then the
/// simplified zone, each followed by a line break.
pub open spec fn spec_full_zone_text(pubkey: Seq<char>, simplified: Seq<char>) -> Seq<char> {
    spec_soa_text(pubkey) + ("\n")@ + simplified + ("\n")@
}

/// The records a whole read keeps for a zone owned by `pubkey`:
/// what scanning the preamble plus the simplified text leaves.
pub open spec fn spec_zone_records(pubkey: Seq<char>, simplified: Seq<char>) -> Option<
    Seq<ZoneRecord>,
> {
    spec_collect(zone_scan(spec_full_zone_text(pubkey, simplified)), Seq::empty())
}

/// The records kept from the scanned entries: records other than the
/// SOA, in order; includes are skipped; `None` when scanning failed.
pub open spec fn spec_collect(items: Seq<ZoneItem>, acc: Seq<ZoneRecord>) -> Option<
    Seq<ZoneRecord>,
>
    decreases items.len(),
{
    if items.len() == 0 {
        Some(acc)
    } else {
        match items[0] {
            ZoneItem::Malformed => None,
            ZoneItem::Include => spec_collect(items.drop_first(), acc),
            ZoneItem::Record(rec) => match rec.data {
                RecordData::Soa => spec_collect(items.drop_first(), acc),
                _ => spec_collect(items.drop_first(), acc.push(rec)),
            },
        }
    }
}

/// One record encoded onto a packet.
pub open spec fn spec_encode_step(acc: Seq<u8>, rec: ZoneRecord) -> Seq<u8> {
    match rec.data {
        RecordData::A(x) => spec_append_a(acc, rec.owner@, RECORD_TTL, x),
        RecordData::Aaaa(x) => spec_append_aaaa(acc, rec.owner@, RECORD_TTL, x),
        RecordData::Ns(t) => spec_append_ns(acc, rec.owner@, RECORD_TTL, t@),
        RecordData::Txt(t) => spec_append_txt(acc, rec.owner@, RECORD_TTL, t@),
        RecordData::Mx(p, t) => spec_append_mx(acc, rec.owner@, RECORD_TTL, p, t@),
        RecordData::Soa => acc,
        RecordData::Unsupported => acc,
    }
}

/// All records encoded onto a packet, left to right.
pub open spec fn spec_encode_all(acc: Seq<u8>, recs: Seq<ZoneRecord>) -> Seq<u8>
    decreases recs.len(),
{
    if recs.len() == 0 {
        acc
    } else {
        spec_encode_step(spec_encode_all(acc, recs.drop_last()), recs.last())
    }
}

/// Whether the external encoder accepts one record on a packet.
pub open spec fn spec_step_ok(acc: Seq<u8>, rec: ZoneRecord) -> bool {
    match rec.data {
        RecordData::A(x) => spec_append_a_ok(acc, rec.owner@, RECORD_TTL, x),
        RecordData::Aaaa(x) => spec_append_aaaa_ok(acc, rec.owner@, RECORD_TTL, x),
        RecordData::Ns(t) => spec_append_ns_ok(acc, rec.owner@, RECORD_TTL, t@),
        RecordData::Txt(t) => spec_append_txt_ok(acc, rec.owner@, RECORD_TTL, t@),
        RecordData::Mx(p, t) => spec_append_mx_ok(acc, rec.owner@, RECORD_TTL, p, t@),
        RecordData::Soa => false,
        RecordData::Unsupported => false,
    }
}

/// Whether the external encoder accepts every record of the fold.
pub open spec fn spec_encode_all_ok(acc: Seq<u8>, recs: Seq<ZoneRecord>) -> bool
    decreases recs.len(),
{
    if recs.len() == 0 {
        true
    } else {
        spec_encode_all_ok(acc, recs.drop_last()) && spec_step_ok(
            spec_encode_all(acc, recs.drop_last()),
            recs.last(),
        )
    }
}

/// A rejected prefix can never become an accepted fold.
proof fn lemma_encode_ok_extends(acc: Seq<u8>, recs: Seq<ZoneRecord>, i: int, j: int)
    requires
        0 <= i <= j <= recs.len(),
        !spec_encode_all_ok(acc, recs.subrange(0, i)),
    ensures
        !spec_encode_all_ok(acc, recs.subrange(0, j)),
    decreases j - i,
{
    if j > i {
        lemma_encode_ok_extends(acc, recs, i, j - 1);
        assert(recs.subrange(0, j).drop_last() =~= recs.subrange(0, j - 1));
    }
}

/// When a read succeeds: the scan yields records, all of a supported
/// type, and the external encoder accepts the empty reply and every
/// append of the fold.
pub open spec fn spec_read_ok(pubkey: Seq<char>, simplified: Seq<char>) -> bool {
    match spec_zone_records(pubkey, simplified) {
        Some(v) => {
            &&& (forall|k: int| 0 <= k < v.len() ==> spec_supported(#[trigger] v[k]))
            &&& spec_empty_reply_ok(0)
            &&& spec_encode_all_ok(spec_empty_reply(0), v)
        },
        None => false,
    }
}

/// A zone read from a simplified description: the encoded wire-format
/// packet bytes and the records they carry.
#[derive(Debug)]
pub struct PkarrZone {
    pub paket_bytes: Vec<u8>,
    pub records: Vec<ZoneRecord>,
}

/// A decoded view of a packet: its answer records.
#[derive(Debug)]
pub struct DnsPacket {
    pub answers: Vec<ZoneRecord>,
}

impl PkarrZone {
    /// Reads a simplified zone description: prepends the synthetic SOA
    /// preamble for `pubkey`, scans the text, keeps every record but the
    /// SOA, and encodes the records into one compressed DNS reply
    /// packet. Succeeds exactly when the scan yields records, all of a
    /// supported type, that the external encoder accepts (see
    /// [`spec_read_ok`]); fails with [`ZoneError::Parse`] exactly when
    /// the scan fails, with [`ZoneError::Unsupported`] exactly when a
    /// kept record has an unsupported type, and with
    /// [`ZoneError::Encode`] exactly when the external encoder rejects
    /// the empty reply or an append.
    #[verifier::spinoff_prover]
    #[verifier::rlimit(60)]
    pub fn read(simplified_zone: String, pubkey: &str) -> (r: Result<PkarrZone, ZoneError>)
        ensures
            r is Ok <==> spec_read_ok(pubkey@, simplified_zone@),
            r matches Ok(z) ==> {
                &&& spec_zone_records(pubkey@, simplified_zone@) == Some(z.records@)
                &&& z.paket_bytes@ == spec_encode_all(spec_empty_reply(0), z.records@)
                &&& forall|k: int|
                    0 <= k < z.records@.len() ==> spec_supported(#[trigger] z.records@[k])
            },
            r matches Err(e) ==> match e {
                ZoneError::Parse => spec_zone_records(pubkey@, simplified_zone@) is None,
                ZoneError::Unsupported => spec_zone_records(pubkey@, simplified_zone@) matches Some(
                    v,
                ) && (exists|k: int| 0 <= k < v.len() && !spec_supported(#[trigger] v[k])),
                ZoneError::Encode => spec_zone_records(pubkey@, simplified_zone@) matches Some(v)
                    && (forall|k: int| 0 <= k < v.len() ==> spec_supported(#[trigger] v[k])) && !(
                spec_empty_reply_ok(0) && spec_encode_all_ok(spec_empty_reply(0), v)),
            },
            spec_zone_records(pubkey@, simplified_zone@) is None ==> r == Err::<
                PkarrZone,
                ZoneError,
            >(ZoneError::Parse),
    {
        let records = match Self::parse_simplified_zone(simplified_zone, pubkey) {
            Ok(records) => records,
            Err(e) => {
                return Err(e);
            },
        };
        let bytes = match Self::entries_to_simple_dns_packet(&records) {
            Ok(bytes) => bytes,
            Err(e) => {
                proof {
                    let scanned = spec_zone_records(pubkey@, simplified_zone@);
                    assert(scanned == Some(records@));
                    if e is Unsupported {
                        let k = choose|k: int|
                            0 <= k < records@.len() && !spec_supported(#[trigger] records@[k]);
                        assert(scanned matches Some(v) && 0 <= k < v.len() && !spec_supported(
                            v[k],
                        ));
                    }
                    assert(!spec_read_ok(pubkey@, simplified_zone@));
                }
                return Err(e);
            },
        };
        proof {
            assert(spec_read_ok(pubkey@, simplified_zone@));
        }
        Ok(PkarrZone { paket_bytes: bytes, records })
    }

    /// The answer records this zone's packet carries.
    pub fn packet(&self) -> (r: DnsPacket)
        ensures
            r.answers@.len() == self.records@.len(),
            forall|i: int|
                0 <= i < self.records@.len() ==> #[trigger] r.answers@[i]@ == self.records@[i]@,
    {
        let mut answers: Vec<ZoneRecord> = Vec::new();
        let mut i: usize = 0;
        while i < self.records.len()
            invariant
                i <= self.records@.len(),
                answers@.len() == i,
                forall|j: int| 0 <= j < i ==> #[trigger] answers@[j]@ == self.records@[j]@,
            decreases self.records@.len() - i,
        {
            answers.push(self.records[i].clone());
            i += 1;
        }
        DnsPacket { answers }
    }

    /// The synthetic SOA preamble that spares the author writing one.
    pub fn generate_soa(pubkey: &str) -> (r: String)
        ensures
            r@ == spec_soa_text(pubkey@),
    {
        let mut text = String::from_str("$ORIGIN ");
        text.append(pubkey);
        text.append(
            ". \n$TTL 86400 \n@\tIN\tSOA\t127.0.0.1.\thostmaster.example.com. (\n\t\t\t2001062501 ; serial\n\t\t\t21600      ; refresh after 6 hours\n\t\t\t3600       ; retry after 1 hour\n\t\t\t604800     ; expire after 1 week\n\t\t\t86400 )    ; minimum TTL of 1 day\n",
        );
        text
    }

    /// Scans the preamble plus the simplified zone and keeps every
    /// record but the SOA, in scanning order; see [`spec_collect`].
    fn parse_simplified_zone(simplified_zone: String, pubkey: &str) -> (r: Result<
        Vec<ZoneRecord>,
        ZoneError,
    >)
        ensures
            r matches Ok(v) ==> spec_zone_records(pubkey@, simplified_zone@) == Some(v@),
            r matches Err(e) ==> e == ZoneError::Parse && spec_zone_records(
                pubkey@,
                simplified_zone@,
            ) is None,
    {
        let mut text = Self::generate_soa(pubkey);
        text.append("\n");
        text.append(simplified_zone.as_str());
        text.append("\n");
        proof {
            assert(text@ == spec_full_zone_text(pubkey@, simplified_zone@));
        }
        let mut zonefile = zonefile_from_text(text.as_str());
        let ghost all = zone_items(zonefile);
        let mut records: Vec<ZoneRecord> = Vec::new();
        loop
            invariant
                zone_scan_live(zonefile),
                spec_collect(all, Seq::empty()) == spec_collect(zone_items(zonefile), records@),
                all == zone_scan(spec_full_zone_text(pubkey@, simplified_zone@)),
                spec_zone_records(pubkey@, simplified_zone@) == spec_collect(all, Seq::empty()),
            decreases zone_items(zonefile).len(),
        {
            match next_zone_item(&mut zonefile) {
                None => {
                    return Ok(records);
                },
                Some(ZoneItem::Malformed) => {
                    return Err(ZoneError::Parse);
                },
                Some(ZoneItem::Include) => {},
                Some(ZoneItem::Record(rec)) => {
                    match rec.data {
                        RecordData::Soa => {},
                        _ => {
                            records.push(rec);
                        },
                    }
                },
            }
        }
    }

    /// Encodes the records, in order, into one compressed DNS reply
    /// packet; see [`spec_encode_all`]. Record support is checked for
    /// every record before anything is encoded, so an unsupported
    /// record type is always reported as such.
    fn entries_to_simple_dns_packet(records: &Vec<ZoneRecord>) -> (r: Result<Vec<u8>, ZoneError>)
        ensures
            r matches Ok(b) ==> b@ == spec_encode_all(spec_empty_reply(0), records@),
            r is Ok <==> (forall|k: int|
                0 <= k < records@.len() ==> spec_supported(#[trigger] records@[k]))
                && spec_empty_reply_ok(0) && spec_encode_all_ok(spec_empty_reply(0), records@),
            (exists|k: int| 0 <= k < records@.len() && !spec_supported(#[trigger] records@[k]))
                ==> r == Err::<Vec<u8>, ZoneError>(ZoneError::Unsupported),
            r matches Err(e) ==> match e {
                ZoneError::Parse => false,
                ZoneError::Unsupported => exists|k: int|
                    0 <= k < records@.len() && !spec_supported(#[trigger] records@[k]),
                ZoneError::Encode => (forall|k: int|
                    0 <= k < records@.len() ==> spec_supported(#[trigger] records@[k])) && !(
                spec_empty_reply_ok(0) && spec_encode_all_ok(spec_empty_reply(0), records@)),
            },
    {
        let mut k: usize = 0;
        while k < records.len()
            invariant
                k <= records@.len(),
                forall|j: int| 0 <= j < k ==> spec_supported(#[trigger] records@[j]),
            decreases records@.len() - k,
        {
            match &records[k].data {
                RecordData::Soa => {
                    proof {
                        assert(!spec_supported(records@[k as int]));
                    }
                    return Err(ZoneError::Unsupported);
                },
                RecordData::Unsupported => {
                    proof {
                        assert(!spec_supported(records@[k as int]));
                    }
                    return Err(ZoneError::Unsupported);
                },
                _ => {},
            }
            k += 1;
        }
        let mut bytes = match empty_reply_packet(0) {
            Ok(b) => b,
            Err(e) => {
                return Err(e);
            },
        };
        proof {
            assert(records@.subrange(0, 0) =~= Seq::<ZoneRecord>::empty());
        }
        let mut i: usize = 0;
        while i < records.len()
            invariant
                i <= records@.len(),
                forall|j: int| 0 <= j < records@.len() ==> spec_supported(#[trigger] records@[j]),
                spec_empty_reply_ok(0),
                spec_wire_packet(bytes@),
                spec_encode_all_ok(spec_empty_reply(0), records@.subrange(0, i as int)),
                bytes@ == spec_encode_all(spec_empty_reply(0), records@.subrange(0, i as int)),
            decreases records@.len() - i,
        {
            let rec = &records[i];
            let appended = match &rec.data {
                RecordData::A(x) => append_a_record(&bytes, rec.owner.as_str(), RECORD_TTL, *x),
                RecordData::Aaaa(x) => append_aaaa_record(
                    &bytes,
                    rec.owner.as_str(),
                    RECORD_TTL,
                    *x,
                ),
                RecordData::Ns(t) => append_ns_record(
                    &bytes,
                    rec.owner.as_str(),
                    RECORD_TTL,
                    t.as_str(),
                ),
                RecordData::Txt(t) => append_txt_record(
                    &bytes,
                    rec.owner.as_str(),
                    RECORD_TTL,
                    t.as_str(),
                ),
                RecordData::Mx(p, t) => append_mx_record(
                    &bytes,
                    rec.owner.as_str(),
                    RECORD_TTL,
                    *p,
                    t.as_str(),
                ),
                RecordData::Soa => {
                    proof {
                        assert(false);
                    }
                    return Err(ZoneError::Unsupported);
                },
                RecordData::Unsupported => {
                    proof {
                        assert(false);
                    }
                    return Err(ZoneError::Unsupported);
                },
            };
            proof {
                let prefix = records@.subrange(0, i as int + 1);
                assert(prefix.drop_last() =~= records@.subrange(0, i as int));
                assert(prefix.last() == records@[i as int]);
            }
            bytes = match appended {
                Ok(b) => b,
                Err(e) => {
                    proof {
                        assert(!spec_encode_all_ok(
                            spec_empty_reply(0),
                            records@.subrange(0, i as int + 1),
                        ));
                        lemma_encode_ok_extends(
                            spec_empty_reply(0),
                            records@,
                            i as int + 1,
                            records@.len() as int,
                        );
                        assert(records@.subrange(0, records@.len() as int) =~= records@);
                    }
                    return Err(e);
                },
            };
            i += 1;
        }
        proof {
            assert(records@.subrange(0, records@.len() as int) =~= records@);
        }
        Ok(bytes)
    }
}

} // verus!
