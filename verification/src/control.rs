use vstd::prelude::*;
use vstd::string::*;

use crate::protocol::{
    all_indices, opt_text, BrightnessResult, CommandResult, DisplayStatus, DisplayTarget, Payload, Publication,
};
use crate::text::{
    decimal_text, hex, hex_text, hex_value, lemma_decimal_digits, lemma_hex_text, lemma_decimal_injective, lemma_split_at_slash,
    no_slash, push_decimal,
};

verus! {

/// The MCCS VCP code of luminance, the feature that brightness commands write.
pub const BRIGHTNESS: u8 = 0x10;

/// How many VCP features each display publishes.
pub const FEATURE_COUNT: usize = 8;

/// How many retained messages each display publishes: its identity and three per feature.
pub const PUBLICATIONS_PER_DISPLAY: usize = 25;

/// A VCP feature published below `<topic>/displays/<index>/<topic>/`.
#[derive(Clone, Copy, Debug, PartialEq, Eq)]
pub struct Feature {
    pub topic: &'static str,
    pub code: u8,
}

impl Feature {
    /// A feature with the given topic name and VCP code.
    pub fn new(topic: &'static str, code: u8) -> (f: Feature)
        ensures
            f.topic == topic,
            f.code == code,
    {
        Feature { topic, code }
    }
}

/// The published features, in publication order: topic name and VCP code.
pub open spec fn feature_table() -> Seq<(Seq<char>, u8)> {
    seq![
        ("brightness"@, 0x10u8),
        ("contrast"@, 0x12u8),
        ("red_gain"@, 0x16u8),
        ("green_gain"@, 0x18u8),
        ("blue_gain"@, 0x1au8),
        ("input_source"@, 0x60u8),
        ("speaker_volume"@, 0x62u8),
        ("power_mode"@, 0xd6u8),
    ]
}

/// The intentionally small set of standard VCP features exposed via MQTT.
pub fn features() -> (fs: Vec<Feature>)
    ensures
        fs@.len() == FEATURE_COUNT,
        forall|i: int|
            0 <= i < FEATURE_COUNT ==> (#[trigger] fs@[i]).topic@ == feature_table()[i].0
                && fs@[i].code == feature_table()[i].1,
{
    let fs = vec![
        Feature::new("brightness", BRIGHTNESS),
        Feature::new("contrast", 0x12),
        Feature::new("red_gain", 0x16),
        Feature::new("green_gain", 0x18),
        Feature::new("blue_gain", 0x1a),
        Feature::new("input_source", 0x60),
        Feature::new("speaker_volume", 0x62),
        Feature::new("power_mode", 0xd6),
    ];
    fs
}

/// The published features have pairwise different topic names and VCP codes, and luminance
/// comes first.
pub proof fn lemma_features_distinct()
    ensures
        forall|i: int, j: int|
            0 <= i < j < FEATURE_COUNT ==> #[trigger] feature_table()[i].0 != #[trigger] feature_table()[j].0
                && feature_table()[i].1 != feature_table()[j].1,
        feature_table()[0].1 == BRIGHTNESS,
{
    reveal_strlit("brightness");
    reveal_strlit("contrast");
    reveal_strlit("red_gain");
    reveal_strlit("green_gain");
    reveal_strlit("blue_gain");
    reveal_strlit("input_source");
    reveal_strlit("speaker_volume");
    reveal_strlit("power_mode");
    let t = feature_table();
    assert(t[0].0[0] == 'b' && t[1].0[0] == 'c' && t[2].0[0] == 'r' && t[3].0[0] == 'g');
    assert(t[4].0[0] == 'b' && t[5].0[0] == 'i' && t[6].0[0] == 's' && t[7].0[0] == 'p');
    assert(t[0].0[1] == 'r' && t[4].0[1] == 'l');
}

/// What the library reads of a detected display: its DDC/CI identity data.
#[derive(Clone, Debug, PartialEq, Eq)]
pub struct DisplayInfo {
    pub backend: String,
    pub id: String,
    pub manufacturer_id: Option<String>,
    pub model_id: Option<u16>,
    pub version: Option<(u8, u8)>,
    pub serial: Option<u32>,
    pub manufacture_year: Option<u8>,
    pub manufacture_week: Option<u8>,
    pub model_name: Option<String>,
    pub serial_number: Option<String>,
    pub edid_data: Option<Vec<u8>>,
    pub mccs_version: Option<(u8, u8)>,
}

/// One VCP reading: current value, maximum and value type.
#[derive(Clone, Copy, Debug, PartialEq, Eq)]
pub struct VcpValue {
    pub value: u16,
    pub maximum: u16,
    pub ty: u8,
}

/// The identity document published for each display.
#[derive(Debug, PartialEq, Eq)]
pub struct DisplayIdentity {
    pub backend: String,
    pub id: String,
    pub manufacturer_id: Option<String>,
    pub model_id: Option<u16>,
    pub version: Option<String>,
    pub serial: Option<u32>,
    pub manufacture_year: Option<u8>,
    pub manufacture_week: Option<u8>,
    pub model_name: Option<String>,
    pub serial_number: Option<String>,
    pub mccs_version: Option<String>,
    pub edid_hex: Option<String>,
}

/// `major.minor` in decimal.
pub open spec fn version_text(v: (u8, u8)) -> Seq<char> {
    decimal_text(v.0 as nat) + "."@ + decimal_text(v.1 as nat)
}

pub open spec fn opt_version_text(v: Option<(u8, u8)>) -> Option<Seq<char>> {
    match v {
        Some(p) => Some(version_text(p)),
        None => None,
    }
}

pub open spec fn opt_hex_text(b: Option<Vec<u8>>) -> Option<Seq<char>> {
    match b {
        Some(bytes) => Some(hex_text(bytes@)),
        None => None,
    }
}

/// `id` is the identity document of `info`.
pub open spec fn identity_of(id: DisplayIdentity, info: DisplayInfo) -> bool {
    &&& id.backend@ == info.backend@
    &&& id.id@ == info.id@
    &&& opt_text(id.manufacturer_id) == opt_text(info.manufacturer_id)
    &&& id.model_id == info.model_id
    &&& opt_text(id.version) == opt_version_text(info.version)
    &&& id.serial == info.serial
    &&& id.manufacture_year == info.manufacture_year
    &&& id.manufacture_week == info.manufacture_week
    &&& opt_text(id.model_name) == opt_text(info.model_name)
    &&& opt_text(id.serial_number) == opt_text(info.serial_number)
    &&& opt_text(id.mccs_version) == opt_version_text(info.mccs_version)
    &&& opt_text(id.edid_hex) == opt_hex_text(info.edid_data)
}

/// Every field of an identity document carries the same-named field of the display: text
/// fields verbatim, numbers unchanged, versions as `major.minor` in decimal, and the EDID as
/// lowercase hex of the raw bytes.
pub proof fn lemma_identity_fields(id: DisplayIdentity, info: DisplayInfo)
    requires
        identity_of(id, info),
    ensures
        id.backend@ == info.backend@,
        id.id@ == info.id@,
        id.model_id == info.model_id,
        id.serial == info.serial,
        id.manufacture_year == info.manufacture_year,
        id.manufacture_week == info.manufacture_week,
        id.manufacturer_id is Some == info.manufacturer_id is Some,
        info.manufacturer_id matches Some(m) ==> id.manufacturer_id->0@ == m@,
        id.model_name is Some == info.model_name is Some,
        info.model_name matches Some(m) ==> id.model_name->0@ == m@,
        id.serial_number is Some == info.serial_number is Some,
        info.serial_number matches Some(m) ==> id.serial_number->0@ == m@,
        id.version is Some == info.version is Some,
        info.version matches Some(v) ==> id.version->0@ == decimal_text(v.0 as nat) + "."@ + decimal_text(
            v.1 as nat,
        ),
        id.mccs_version is Some == info.mccs_version is Some,
        info.mccs_version matches Some(v) ==> id.mccs_version->0@ == decimal_text(v.0 as nat) + "."@
            + decimal_text(v.1 as nat),
        id.edid_hex is Some == info.edid_data is Some,
        info.edid_data matches Some(b) ==> id.edid_hex->0@.len() == 2 * b@.len() && forall|i: int|
            0 <= i < b@.len() ==> 16 * hex_value(id.edid_hex->0@[2 * i]) + hex_value(
                id.edid_hex->0@[2 * i + 1],
            ) == #[trigger] b@[i],
{
    match info.edid_data {
        Some(b) => {
            lemma_hex_text(b@);
        },
        None => {},
    }
}

/// The name a display is listed under: its model name, or `Unknown display`.
pub open spec fn display_name(info: DisplayInfo) -> Seq<char> {
    match info.model_name {
        Some(n) => n@,
        None => "Unknown display"@,
    }
}

/// Messages of different displays never share a topic: a topic below `displays/<d>/`
/// names display `d` alone.
pub proof fn lemma_display_topics_disjoint(d: nat, e: nat, x: Seq<char>, y: Seq<char>)
    requires
        display_topic(d) + "/"@ + x == display_topic(e) + "/"@ + y,
    ensures
        d == e,
{
    reveal_strlit("displays/");
    reveal_strlit("/");
    let dd = decimal_text(d);
    let de = decimal_text(e);
    let l = display_topic(d) + "/"@ + x;
    let r = display_topic(e) + "/"@ + y;
    lemma_decimal_digits(d);
    lemma_decimal_digits(e);
    assert(forall|i: int| 0 <= i < dd.len() ==> l[9 + i] == dd[i]);
    assert(forall|i: int| 0 <= i < de.len() ==> r[9 + i] == de[i]);
    if dd.len() < de.len() {
        assert(l[9 + dd.len() as int] == '/');
        assert(r[9 + dd.len() as int] == de[dd.len() as int]);
    } else if de.len() < dd.len() {
        assert(r[9 + de.len() as int] == '/');
        assert(l[9 + de.len() as int] == dd[de.len() as int]);
    } else {
        assert(dd =~= de);
        lemma_decimal_injective(d, e);
    }
}

/// What follows `displays/<index>/` in message `i` of a display's block.
pub open spec fn block_tail(i: int) -> Seq<char> {
    if i == 0 {
        "identity"@
    } else {
        feature_table()[(i - 1) / 3].0 + "/"@ + field_name((i - 1) % 3)
    }
}

/// Message `i` of the block of display `index` sits at `displays/<index>/<block_tail(i)>`.
pub proof fn lemma_block_topic(ps: Seq<Publication>, index: nat, info: DisplayInfo, row: Seq<Option<VcpValue>>, i: int)
    requires
        display_block(ps, index, info, row),
        0 <= i < PUBLICATIONS_PER_DISPLAY,
    ensures
        ps[i].topic_suffix@ == display_topic(index) + "/"@ + block_tail(i),
{
    reveal_strlit("/identity");
    reveal_strlit("/");
    reveal_strlit("identity");
    if i == 0 {
        assert("/identity"@ =~= "/"@ + "identity"@);
        assert(display_topic(index) + "/identity"@ =~= display_topic(index) + "/"@ + "identity"@);
    } else {
        let k = i - 1;
        let f = k / 3;
        let j = k % 3;
        let values = ps.subrange(1, PUBLICATIONS_PER_DISPLAY as int);
        assert(values[k] == ps[i]);
        let three = values.subrange(3 * f, 3 * f + 3);
        assert(feature_publications(three, display_topic(index), feature_table()[f].0, row[f]));
        assert(three[j] == values[k]);
        assert(display_topic(index) + "/"@ + feature_table()[f].0 + "/"@ + field_name(j) =~= display_topic(
            index,
        ) + "/"@ + (feature_table()[f].0 + "/"@ + field_name(j)));
    }
}

/// The tails of a display's block differ pairwise.
pub proof fn lemma_block_tails_distinct(i: int, j: int)
    requires
        0 <= i < PUBLICATIONS_PER_DISPLAY,
        0 <= j < PUBLICATIONS_PER_DISPLAY,
        i != j,
    ensures
        block_tail(i) != block_tail(j),
{
    reveal_strlit("identity");
    reveal_strlit("/");
    reveal_strlit("value");
    reveal_strlit("maximum");
    reveal_strlit("value_type");
    reveal_strlit("brightness");
    reveal_strlit("contrast");
    reveal_strlit("red_gain");
    reveal_strlit("green_gain");
    reveal_strlit("blue_gain");
    reveal_strlit("input_source");
    reveal_strlit("speaker_volume");
    reveal_strlit("power_mode");
    lemma_features_distinct();
    assert forall|f: int| 0 <= f < FEATURE_COUNT implies no_slash(#[trigger] feature_table()[f].0) by {
        let t = feature_table()[f].0;
        assert forall|q: int| 0 <= q < t.len() implies #[trigger] t[q] != '/' by {}
    }
    if i == 0 || j == 0 {
        let k = if i == 0 { j } else { i };
        let t = feature_table()[(k - 1) / 3].0;
        let tail = block_tail(k);
        assert(no_slash("identity"@)) by {
            assert forall|q: int| 0 <= q < "identity"@.len() implies #[trigger] "identity"@[q] != '/' by {}
        }
        if tail == "identity"@ {
            assert(tail[t.len() as int] == '/');
        }
    } else {
        if block_tail(i) == block_tail(j) {
            let fi = (i - 1) / 3;
            let fj = (j - 1) / 3;
            lemma_split_at_slash(
                feature_table()[fi].0,
                field_name((i - 1) % 3),
                feature_table()[fj].0,
                field_name((j - 1) % 3),
            );
            if fi < fj {
                assert(feature_table()[fi].0 != feature_table()[fj].0);
            } else if fj < fi {
                assert(feature_table()[fj].0 != feature_table()[fi].0);
            }
            assert("value"@ != "maximum"@);
            assert("value"@ != "value_type"@);
            assert("maximum"@ != "value_type"@);
        }
    }
}

/// The messages of one display have pairwise different topics.
pub proof fn lemma_block_topics_distinct(ps: Seq<Publication>, index: nat, info: DisplayInfo, row: Seq<Option<VcpValue>>)
    requires
        display_block(ps, index, info, row),
    ensures
        forall|i: int, j: int|
            0 <= i < j < PUBLICATIONS_PER_DISPLAY ==> #[trigger] ps[i].topic_suffix@ != #[trigger] ps[j].topic_suffix@,
{
    assert forall|i: int, j: int| 0 <= i < j < PUBLICATIONS_PER_DISPLAY implies #[trigger] ps[i].topic_suffix@
        != #[trigger] ps[j].topic_suffix@ by {
        lemma_block_topic(ps, index, info, row, i);
        lemma_block_topic(ps, index, info, row, j);
        lemma_block_tails_distinct(i, j);
        let p = display_topic(index) + "/"@;
        if ps[i].topic_suffix@ == ps[j].topic_suffix@ {
            assert(block_tail(i) =~= (p + block_tail(i)).subrange(p.len() as int, (p + block_tail(i)).len() as int));
            assert(block_tail(j) =~= (p + block_tail(j)).subrange(p.len() as int, (p + block_tail(j)).len() as int));
            assert(p + block_tail(i) =~= display_topic(index) + "/"@ + block_tail(i));
            assert(p + block_tail(j) =~= display_topic(index) + "/"@ + block_tail(j));
        }
    }
}

/// No two retained messages of a scan share a topic, within a display or across displays.
pub proof fn lemma_publication_topics_distinct(
    ps: Seq<Publication>,
    displays: Seq<DisplayInfo>,
    readings: Seq<Seq<Option<VcpValue>>>,
)
    requires
        all_publications(ps, displays, readings),
    ensures
        forall|a: int, b: int|
            0 <= a < b < ps.len() ==> #[trigger] ps[a].topic_suffix@ != #[trigger] ps[b].topic_suffix@,
{
    assert forall|a: int, b: int| 0 <= a < b < ps.len() implies #[trigger] ps[a].topic_suffix@
        != #[trigger] ps[b].topic_suffix@ by {
        let n = PUBLICATIONS_PER_DISPLAY as int;
        let da = a / n;
        let ra = a % n;
        let db = b / n;
        let rb = b % n;
        assert(0 <= da < displays.len() && 0 <= db < displays.len());
        let block_a = ps.subrange(n * da, n * da + n);
        let block_b = ps.subrange(n * db, n * db + n);
        assert(display_block(block_a, da as nat, displays[da], readings[da]));
        assert(display_block(block_b, db as nat, displays[db], readings[db]));
        assert(block_a[ra] == ps[a]);
        assert(block_b[rb] == ps[b]);
        lemma_block_topic(block_a, da as nat, displays[da], readings[da], ra);
        lemma_block_topic(block_b, db as nat, displays[db], readings[db], rb);
        if da == db {
            lemma_block_topics_distinct(block_a, da as nat, displays[da], readings[da]);
            assert(block_a[ra].topic_suffix@ != block_a[rb].topic_suffix@);
        } else if ps[a].topic_suffix@ == ps[b].topic_suffix@ {
            lemma_display_topics_disjoint(da as nat, db as nat, block_tail(ra), block_tail(rb));
        }
    }
}

/// `s` lists `info` at position `index`.
pub open spec fn status_of(s: DisplayStatus, index: int, info: DisplayInfo) -> bool {
    &&& s.index == index
    &&& s.id@ == info.id@
    &&& s.name@ == display_name(info)
}

fn copy_text(s: &Option<String>) -> (r: Option<String>)
    ensures
        opt_text(r) == opt_text(*s),
{
    match s {
        Some(t) => Some(t.clone()),
        None => None,
    }
}

fn version_string(v: &Option<(u8, u8)>) -> (r: Option<String>)
    ensures
        opt_text(r) == opt_version_text(*v),
{
    match v {
        Some(p) => {
            let mut s = String::new();
            push_decimal(&mut s, p.0 as u64);
            s.append(".");
            push_decimal(&mut s, p.1 as u64);
            assert(s@ =~= version_text(*p));
            Some(s)
        },
        None => None,
    }
}

/// The identity document of a display.
pub fn display_identity(info: &DisplayInfo) -> (id: DisplayIdentity)
    ensures
        identity_of(id, *info),
        id.backend@ == info.backend@,
        id.id@ == info.id@,
        id.model_id == info.model_id,
        id.serial == info.serial,
        id.manufacture_year == info.manufacture_year,
        id.manufacture_week == info.manufacture_week,
{
    let edid_hex = match &info.edid_data {
        Some(bytes) => Some(hex(bytes.as_slice())),
        None => None,
    };
    DisplayIdentity {
        backend: info.backend.clone(),
        id: info.id.clone(),
        manufacturer_id: copy_text(&info.manufacturer_id),
        model_id: info.model_id,
        version: version_string(&info.version),
        serial: info.serial,
        manufacture_year: info.manufacture_year,
        manufacture_week: info.manufacture_week,
        model_name: copy_text(&info.model_name),
        serial_number: copy_text(&info.serial_number),
        mccs_version: version_string(&info.mccs_version),
        edid_hex,
    }
}

/// A retained message with the given topic suffix and payload.
pub fn publication(topic_suffix: String, payload: Payload) -> (p: Publication)
    ensures
        p.topic_suffix == topic_suffix,
        p.payload == payload,
{
    Publication { topic_suffix, payload }
}

/// The topic below which display `index` publishes.
pub open spec fn display_topic(index: nat) -> Seq<char> {
    "displays/"@ + decimal_text(index)
}

/// The three subtopics of a feature.
pub open spec fn field_name(j: int) -> Seq<char> {
    if j == 0 {
        "value"@
    } else if j == 1 {
        "maximum"@
    } else {
        "value_type"@
    }
}

/// The payload of subtopic `j` of a feature: the number read, or `null` when unreadable.
pub open spec fn reading_payload(reading: Option<VcpValue>, j: int) -> Payload {
    match reading {
        Some(v) => Payload::Number(
            if j == 0 {
                v.value as u64
            } else if j == 1 {
                v.maximum as u64
            } else {
                v.ty as u64
            },
        ),
        None => Payload::Null,
    }
}

/// `ps` are the three messages of feature `topic` below `display_topic`.
pub open spec fn feature_publications(
    ps: Seq<Publication>,
    display_topic: Seq<char>,
    topic: Seq<char>,
    reading: Option<VcpValue>,
) -> bool {
    &&& ps.len() == 3
    &&& forall|j: int|
        0 <= j < 3 ==> (#[trigger] ps[j]).topic_suffix@ == display_topic + "/"@ + topic + "/"@
            + field_name(j) && ps[j].payload == reading_payload(reading, j)
}

/// `ps` are the messages of every feature below `display_topic`, given one reading per feature.
pub open spec fn value_publications(
    ps: Seq<Publication>,
    display_topic: Seq<char>,
    row: Seq<Option<VcpValue>>,
) -> bool {
    &&& ps.len() == 3 * FEATURE_COUNT
    &&& forall|f: int|
        0 <= f < FEATURE_COUNT ==> feature_publications(
            #[trigger] ps.subrange(3 * f, 3 * f + 3),
            display_topic,
            feature_table()[f].0,
            row[f],
        )
}

/// `ps` are the messages of display `index`: its identity, then every feature value.
pub open spec fn display_block(
    ps: Seq<Publication>,
    index: nat,
    info: DisplayInfo,
    row: Seq<Option<VcpValue>>,
) -> bool {
    &&& ps.len() == PUBLICATIONS_PER_DISPLAY
    &&& ps[0].topic_suffix@ == display_topic(index) + "/identity"@
    &&& ps[0].payload matches Payload::Identity(id) && identity_of(id, info)
    &&& value_publications(ps.subrange(1, PUBLICATIONS_PER_DISPLAY as int), display_topic(index), row)
}

/// `ps` are the messages of every display in order.
pub open spec fn all_publications(
    ps: Seq<Publication>,
    displays: Seq<DisplayInfo>,
    readings: Seq<Seq<Option<VcpValue>>>,
) -> bool {
    &&& ps.len() == PUBLICATIONS_PER_DISPLAY * displays.len()
    &&& forall|d: int|
        0 <= d < displays.len() ==> display_block(
            #[trigger] ps.subrange(
                PUBLICATIONS_PER_DISPLAY * d,
                PUBLICATIONS_PER_DISPLAY * d + PUBLICATIONS_PER_DISPLAY,
            ),
            d as nat,
            displays[d],
            readings[d],
        )
}

/// The three messages of one feature, from its reading (`None` when unreadable).
pub fn read_vcp_publications(
    display_topic: &str,
    feature: &Feature,
    reading: &Option<VcpValue>,
) -> (ps: Vec<Publication>)
    ensures
        feature_publications(ps@, display_topic@, feature.topic@, *reading),
{
    let mut topic = display_topic.to_owned();
    topic.append("/");
    topic.append(feature.topic);
    topic.append("/");
    let base = topic;
    let value_topic = base.clone().concat("value");
    let maximum_topic = base.clone().concat("maximum");
    let type_topic = base.concat("value_type");
    let (p0, p1, p2) = match reading {
        Some(v) => (
            Payload::Number(v.value as u64),
            Payload::Number(v.maximum as u64),
            Payload::Number(v.ty as u64),
        ),
        None => (Payload::Null, Payload::Null, Payload::Null),
    };
    let ps = vec![
        publication(value_topic, p0),
        publication(maximum_topic, p1),
        publication(type_topic, p2),
    ];
    assert(ps@[0].topic_suffix@ =~= display_topic@ + "/"@ + feature.topic@ + "/"@ + field_name(0));
    assert(ps@[1].topic_suffix@ =~= display_topic@ + "/"@ + feature.topic@ + "/"@ + field_name(1));
    assert(ps@[2].topic_suffix@ =~= display_topic@ + "/"@ + feature.topic@ + "/"@ + field_name(2));
    ps
}

/// The messages of every feature of one display, from one reading per feature.
pub fn display_publications(display_topic: &str, row: &Vec<Option<VcpValue>>) -> (ps: Vec<Publication>)
    requires
        row@.len() == FEATURE_COUNT,
    ensures
        value_publications(ps@, display_topic@, row@),
{
    let fs = features();
    let mut ps: Vec<Publication> = Vec::new();
    let mut f: usize = 0;
    while f < FEATURE_COUNT
        invariant
            f <= FEATURE_COUNT,
            row@.len() == FEATURE_COUNT,
            fs@.len() == FEATURE_COUNT,
            forall|i: int|
                0 <= i < FEATURE_COUNT ==> (#[trigger] fs@[i]).topic@ == feature_table()[i].0,
            ps@.len() == 3 * f,
            forall|g: int|
                0 <= g < f ==> feature_publications(
                    #[trigger] ps@.subrange(3 * g, 3 * g + 3),
                    display_topic@,
                    feature_table()[g].0,
                    row@[g],
                ),
        decreases FEATURE_COUNT - f,
    {
        let mut three = read_vcp_publications(display_topic, &fs[f], &row[f]);
        let ghost old_ps = ps@;
        let ghost added = three@;
        ps.append(&mut three);
        assert forall|g: int| 0 <= g < f + 1 implies feature_publications(
            #[trigger] ps@.subrange(3 * g, 3 * g + 3),
            display_topic@,
            feature_table()[g].0,
            row@[g],
        ) by {
            if g < f {
                assert(ps@.subrange(3 * g, 3 * g + 3) =~= old_ps.subrange(3 * g, 3 * g + 3));
            } else {
                assert(ps@.subrange(3 * g, 3 * g + 3) =~= added);
            }
        }
        f = f + 1;
    }
    ps
}

/// Drives the displays: the detected displays, in discovery order.
#[derive(Debug)]
pub struct ScreenController {
    displays: Vec<DisplayInfo>,
}

/// What a scan hands back: the controller, the status listing, the retained messages, and the
/// result of the command that started the scan, if any.
#[derive(Debug)]
pub struct ScanResult {
    pub controller: ScreenController,
    pub displays: Vec<DisplayStatus>,
    pub publications: Vec<Publication>,
    pub command: Option<CommandResult>,
}

/// `r` is a reading table with one row per display and one reading per feature.
pub open spec fn readings_fit(readings: Seq<Vec<Option<VcpValue>>>, count: nat) -> bool {
    &&& readings.len() == count
    &&& forall|d: int| 0 <= d < count ==> (#[trigger] readings[d])@.len() == FEATURE_COUNT
}

/// The rows of a reading table.
pub open spec fn reading_rows(readings: Seq<Vec<Option<VcpValue>>>) -> Seq<Seq<Option<VcpValue>>> {
    readings.map_values(|row: Vec<Option<VcpValue>>| row@)
}

/// `ss` lists `displays`, each at its position.
pub open spec fn listing(ss: Seq<DisplayStatus>, displays: Seq<DisplayInfo>) -> bool {
    &&& ss.len() == displays.len()
    &&& forall|i: int| 0 <= i < displays.len() ==> status_of(#[trigger] ss[i], i, displays[i])
}

/// A status listing names each display at its position, by its id and its model name, or
/// `Unknown display` when it reports none.
pub proof fn lemma_listing_entries(ss: Seq<DisplayStatus>, displays: Seq<DisplayInfo>)
    requires
        listing(ss, displays),
    ensures
        ss.len() == displays.len(),
        forall|i: int|
            0 <= i < ss.len() ==> {
                &&& (#[trigger] ss[i]).index == i
                &&& ss[i].id@ == displays[i].id@
                &&& displays[i].model_name matches Some(n) ==> ss[i].name@ == n@
                &&& displays[i].model_name is None ==> ss[i].name@ == "Unknown display"@
            },
{
    assert forall|i: int| 0 <= i < ss.len() implies {
        &&& (#[trigger] ss[i]).index == i
        &&& ss[i].id@ == displays[i].id@
        &&& displays[i].model_name matches Some(n) ==> ss[i].name@ == n@
        &&& displays[i].model_name is None ==> ss[i].name@ == "Unknown display"@
    } by {
        assert(status_of(ss[i], i, displays[i]));
    }
}

/// The error when a brightness is above 100 percent.
pub open spec fn brightness_range_message() -> Seq<char> {
    "brightness must be an integer from 0 to 100"@
}

/// The error when a display cannot read its luminance.
pub open spec fn no_luminance_message() -> Seq<char> {
    "display does not provide VCP luminance (0x10)"@
}

/// The error when a display reports a luminance maximum of zero.
pub open spec fn zero_maximum_message() -> Seq<char> {
    "display reported a maximum luminance of zero"@
}

/// The error when writing the luminance fails.
pub open spec fn write_failed_message() -> Seq<char> {
    "could not set VCP luminance (0x10)"@
}

/// Why a brightness command is refused before any display is touched: a percentage above 100,
/// or a target that selects nothing.
pub open spec fn brightness_refusal(displays: Seq<DisplayInfo>, target: DisplayTarget, brightness: u8) -> Option<
    Seq<char>,
> {
    if brightness > 100 {
        Some(brightness_range_message())
    } else {
        match target.selection(displays.len()) {
            Err(m) => Some(m),
            Ok(_) => None,
        }
    }
}

/// `c` is a failure with error text `m` and no per-display results.
pub open spec fn is_failure(c: CommandResult, m: Seq<char>) -> bool {
    &&& !c.ok
    &&& opt_text(c.error) == Some(m)
    &&& c.results@.len() == 0
}

/// `job` is a fresh job setting `brightness` on the displays `target` selects, in order.
pub open spec fn job_started(job: BrightnessJob, displays: Seq<DisplayInfo>, target: DisplayTarget, brightness: u8) -> bool {
    &&& job.wf()
    &&& job.percent() == brightness
    &&& job.results().len() == 0
    &&& job.pending() is None
    &&& target.selection(displays.len()) matches Ok(sel) && job.targets().len() == sel.len()
        && forall|k: int|
        0 <= k < sel.len() ==> status_of(#[trigger] job.targets()[k], sel[k] as int, displays[sel[k] as int])
}

/// Every index a target selects names a detected display, and no index is selected twice.
pub proof fn lemma_selection_in_bounds(target: DisplayTarget, count: usize)
    ensures
        target.selection(count as nat) matches Ok(sel) ==> forall|k: int|
            0 <= k < sel.len() ==> #[trigger] sel[k] < count && forall|q: int|
                0 <= q < k ==> sel[q] != sel[k],
{
    match target {
        DisplayTarget::All(_) => {
            assert forall|k: int| 0 <= k < all_indices(count as nat).len() implies #[trigger] all_indices(
                count as nat,
            )[k] == k by {}
        },
        DisplayTarget::Index(_) => {},
    }
}

/// The raw luminance for `percent` of a display whose maximum is `maximum`.
pub open spec fn scaled_luminance(maximum: u16, percent: u8) -> int {
    maximum * percent / 100
}

impl ScreenController {
    /// The detected displays.
    pub closed spec fn displays(&self) -> Seq<DisplayInfo> {
        self.displays@
    }

    /// A controller that knows no display yet.
    pub fn new() -> (c: ScreenController)
        ensures
            c.displays().len() == 0,
    {
        ScreenController { displays: Vec::new() }
    }

    /// Replaces the known displays with a fresh discovery.
    pub fn refresh(&mut self, found: Vec<DisplayInfo>)
        ensures
            final(self).displays() == found@,
    {
        self.displays = found;
    }

    /// The number of known displays.
    pub fn display_count(&self) -> (n: usize)
        ensures
            n == self.displays().len(),
    {
        self.displays.len()
    }

    /// The status listing: one entry per display, in order.
    pub fn status(&self) -> (ss: Vec<DisplayStatus>)
        ensures
            listing(ss@, self.displays()),
    {
        let mut ss: Vec<DisplayStatus> = Vec::new();
        let mut i: usize = 0;
        while i < self.displays.len()
            invariant
                i <= self.displays@.len(),
                ss@.len() == i,
                forall|k: int| 0 <= k < i ==> status_of(#[trigger] ss@[k], k, self.displays@[k]),
            decreases self.displays@.len() - i,
        {
            ss.push(self.status_entry(i));
            i = i + 1;
        }
        ss
    }

    fn status_entry(&self, i: usize) -> (s: DisplayStatus)
        requires
            i < self.displays@.len(),
        ensures
            status_of(s, i as int, self.displays@[i as int]),
    {
        let info = &self.displays[i];
        let name = match &info.model_name {
            Some(n) => n.clone(),
            None => "Unknown display".to_owned(),
        };
        DisplayStatus { index: i, id: info.id.clone(), name }
    }

    /// Validates a brightness command and prepares the DDC/CI work for the selected displays.
    /// A refusal is the failed command result to report.
    pub fn set_brightness(&self, target: &DisplayTarget, brightness: u8) -> (r: Result<BrightnessJob, CommandResult>)
        ensures
            match brightness_refusal(self.displays(), *target, brightness) {
                Some(m) => r matches Err(c) && is_failure(c, m),
                None => r matches Ok(job) && job_started(job, self.displays(), *target, brightness),
            },
    {
        if brightness > 100 {
            return Err(CommandResult::failure("brightness must be an integer from 0 to 100"));
        }
        let indices = match target.indices(self.displays.len()) {
            Ok(indices) => indices,
            Err(error) => return Err(CommandResult::failure(error.as_str())),
        };
        let ghost sel = indices@;
        assert(forall|k: int| 0 <= k < sel.len() ==> sel[k] < self.displays@.len()) by {
            match target {
                DisplayTarget::All(_) => {},
                DisplayTarget::Index(_) => {},
            }
        }
        let mut targets: Vec<DisplayStatus> = Vec::new();
        let mut k: usize = 0;
        while k < indices.len()
            invariant
                k <= indices@.len(),
                sel == indices@,
                forall|q: int| 0 <= q < sel.len() ==> sel[q] < self.displays@.len(),
                targets@.len() == k,
                forall|q: int|
                    0 <= q < k ==> status_of(
                        #[trigger] targets@[q],
                        sel[q] as int,
                        self.displays@[sel[q] as int],
                    ),
            decreases indices@.len() - k,
        {
            targets.push(self.status_entry(indices[k]));
            k = k + 1;
        }
        Ok(BrightnessJob { percent: brightness, targets, results: Vec::new(), pending: None })
    }

    /// The retained messages of every display: its identity, then each feature value from
    /// `readings`, one row per display and one reading per feature (`None` when unreadable).
    pub fn collect_publications(&self, readings: &Vec<Vec<Option<VcpValue>>>) -> (ps: Vec<Publication>)
        requires
            readings_fit(readings@, self.displays().len()),
        ensures
            all_publications(ps@, self.displays(), reading_rows(readings@)),
    {
        let mut ps: Vec<Publication> = Vec::new();
        let mut d: usize = 0;
        let n = self.displays.len();
        while d < n
            invariant
                n == self.displays@.len(),
                d <= n,
                readings_fit(readings@, n as nat),
                ps@.len() == PUBLICATIONS_PER_DISPLAY * d,
                forall|e: int|
                    0 <= e < d ==> display_block(
                        #[trigger] ps@.subrange(
                            PUBLICATIONS_PER_DISPLAY * e,
                            PUBLICATIONS_PER_DISPLAY * e + PUBLICATIONS_PER_DISPLAY,
                        ),
                        e as nat,
                        self.displays@[e],
                        reading_rows(readings@)[e],
                    ),
            decreases n - d,
        {
            let mut base = "displays/".to_owned();
            push_decimal(&mut base, d as u64);
            assert(base@ =~= display_topic(d as nat));
            let identity_topic = base.clone().concat("/identity");
            let identity = display_identity(&self.displays[d]);
            let ghost old_ps = ps@;
            ps.push(publication(identity_topic, Payload::Identity(identity)));
            let ghost with_identity = ps@;
            let mut values = display_publications(base.as_str(), &readings[d]);
            let ghost added = values@;
            ps.append(&mut values);
            proof {
                let lo = PUBLICATIONS_PER_DISPLAY * d;
                let block = ps@.subrange(lo, lo + PUBLICATIONS_PER_DISPLAY);
                assert(block =~= with_identity.subrange(lo, lo + 1) + added);
                assert(block.subrange(1, PUBLICATIONS_PER_DISPLAY as int) =~= added);
                assert(block[0] == with_identity[lo]);
                assert(reading_rows(readings@)[d as int] == readings@[d as int]@);
                assert forall|e: int| 0 <= e < d + 1 implies display_block(
                    #[trigger] ps@.subrange(
                        PUBLICATIONS_PER_DISPLAY * e,
                        PUBLICATIONS_PER_DISPLAY * e + PUBLICATIONS_PER_DISPLAY,
                    ),
                    e as nat,
                    self.displays@[e],
                    reading_rows(readings@)[e],
                ) by {
                    if e < d {
                        assert(ps@.subrange(
                            PUBLICATIONS_PER_DISPLAY * e,
                            PUBLICATIONS_PER_DISPLAY * e + PUBLICATIONS_PER_DISPLAY,
                        ) =~= old_ps.subrange(
                            PUBLICATIONS_PER_DISPLAY * e,
                            PUBLICATIONS_PER_DISPLAY * e + PUBLICATIONS_PER_DISPLAY,
                        ));
                    }
                }
            }
            d = d + 1;
        }
        ps
    }

    /// Finishes a scan: adopts `discovered` as the displays when a rediscovery ran, then lists
    /// the displays and builds their retained messages from `readings` (one row per display
    /// after the rediscovery, one reading per feature).
    pub fn scan(
        self,
        discovered: Option<Vec<DisplayInfo>>,
        readings: Vec<Vec<Option<VcpValue>>>,
        command: Option<CommandResult>,
    ) -> (r: ScanResult)
        requires
            readings_fit(
                readings@,
                match discovered {
                    Some(found) => found@.len(),
                    None => self.displays().len(),
                },
            ),
        ensures
            r.controller.displays() == match discovered {
                Some(found) => found@,
                None => self.displays(),
            },
            listing(r.displays@, r.controller.displays()),
            all_publications(r.publications@, r.controller.displays(), reading_rows(readings@)),
            r.command == command,
    {
        let mut controller = self;
        match discovered {
            Some(found) => controller.refresh(found),
            None => {},
        }
        let displays = controller.status();
        let publications = controller.collect_publications(&readings);
        ScanResult { controller, displays, publications, command }
    }
}

/// The DDC/CI operation a brightness job needs next.
#[derive(Clone, Copy, Debug, PartialEq, Eq)]
pub enum DdcAction {
    /// Read the luminance feature of display `display`.
    ReadLuminance { display: usize },
    /// Write `value` to the luminance feature of display `display`.
    WriteLuminance { display: usize, value: u16 },
    /// Every selected display has been handled.
    Finished,
}

/// `r` reports the outcome for `target` at `percent`.
pub open spec fn result_is(
    r: BrightnessResult,
    target: DisplayStatus,
    percent: u8,
    applied: Option<u16>,
    error: Option<Seq<char>>,
) -> bool {
    &&& r.index == target.index
    &&& r.id@ == target.id@
    &&& r.name@ == target.name@
    &&& r.requested_percent == percent
    &&& r.applied_vcp_value == applied
    &&& opt_text(r.error) == error
}

/// Setting one brightness percentage on a list of displays, one DDC/CI operation at a time:
/// for each display read the luminance, then write the scaled value. A failure is recorded
/// for that display and the job moves on to the next one.
#[derive(Debug)]
pub struct BrightnessJob {
    percent: u8,
    targets: Vec<DisplayStatus>,
    results: Vec<BrightnessResult>,
    pending: Option<u16>,
}

impl BrightnessJob {
    /// The requested percentage.
    pub closed spec fn percent(&self) -> u8 {
        self.percent
    }

    /// The selected displays, in order.
    pub closed spec fn targets(&self) -> Seq<DisplayStatus> {
        self.targets@
    }

    /// The outcomes so far, one per handled display, in order.
    pub closed spec fn results(&self) -> Seq<BrightnessResult> {
        self.results@
    }

    /// The value to write to the current display once its luminance was read.
    pub closed spec fn pending(&self) -> Option<u16> {
        self.pending
    }

    /// The job's invariant: outcomes are a prefix of the targets, in order.
    pub open spec fn wf(&self) -> bool {
        &&& self.percent() <= 100
        &&& self.results().len() <= self.targets().len()
        &&& self.pending() is Some ==> self.results().len() < self.targets().len()
        &&& forall|k: int|
            0 <= k < self.results().len() ==> {
                let r = #[trigger] self.results()[k];
                let t = self.targets()[k];
                &&& r.index == t.index
                &&& r.id@ == t.id@
                &&& r.name@ == t.name@
                &&& r.requested_percent == self.percent()
                &&& (r.applied_vcp_value is Some) != (r.error is Some)
            }
    }

    /// The DDC/CI operation the job needs next.
    pub open spec fn next(&self) -> DdcAction {
        if self.results().len() >= self.targets().len() {
            DdcAction::Finished
        } else {
            match self.pending() {
                Some(v) => DdcAction::WriteLuminance {
                    display: self.targets()[self.results().len() as int].index,
                    value: v,
                },
                None => DdcAction::ReadLuminance {
                    display: self.targets()[self.results().len() as int].index,
                },
            }
        }
    }

    /// An upper bound on the DDC/CI operations the job still needs.
    pub open spec fn steps_left(&self) -> nat {
        (2 * (self.targets().len() - self.results().len()) - (if self.pending() is Some {
            1int
        } else {
            0int
        })) as nat
    }

    /// The operation to perform next.
    pub fn next_action(&self) -> (a: DdcAction)
        requires
            self.wf(),
        ensures
            a == self.next(),
    {
        let done = self.results.len();
        if done >= self.targets.len() {
            DdcAction::Finished
        } else {
            match self.pending {
                Some(v) => DdcAction::WriteLuminance { display: self.targets[done].index, value: v },
                None => DdcAction::ReadLuminance { display: self.targets[done].index },
            }
        }
    }

    fn record(&mut self, applied: Option<u16>, error: Option<String>)
        requires
            old(self).wf(),
            old(self).results().len() < old(self).targets().len(),
            (applied is Some) != (error is Some),
        ensures
            final(self).wf(),
            final(self).percent() == old(self).percent(),
            final(self).targets() == old(self).targets(),
            final(self).pending() is None,
            final(self).results().len() == old(self).results().len() + 1,
            final(self).results().subrange(0, old(self).results().len() as int) == old(
                self,
            ).results(),
            result_is(
                final(self).results()[old(self).results().len() as int],
                old(self).targets()[old(self).results().len() as int],
                old(self).percent(),
                applied,
                opt_text(error),
            ),
    {
        let t = &self.targets[self.results.len()];
        let r = BrightnessResult {
            index: t.index,
            id: t.id.clone(),
            name: t.name.clone(),
            requested_percent: self.percent,
            applied_vcp_value: applied,
            error,
        };
        let ghost old_results = self.results@;
        self.results.push(r);
        self.pending = None;
        assert(self.results@.subrange(0, old_results.len() as int) =~= old_results);
    }

    /// Takes the luminance reading of the current display (`None` when it could not be read).
    /// An unreadable luminance or a zero maximum is recorded as that display's failure;
    /// otherwise the scaled value is written next.
    pub fn on_read(&mut self, reading: Option<VcpValue>)
        requires
            old(self).wf(),
            old(self).next() is ReadLuminance,
        ensures
            final(self).wf(),
            final(self).percent() == old(self).percent(),
            final(self).targets() == old(self).targets(),
            final(self).steps_left() < old(self).steps_left(),
            match reading {
                Some(v) => if v.maximum == 0 {
                    final(self).pending() is None && final(self).results().len() == old(
                        self,
                    ).results().len() + 1 && final(self).results().subrange(
                        0,
                        old(self).results().len() as int,
                    ) == old(self).results() && result_is(
                        final(self).results()[old(self).results().len() as int],
                        old(self).targets()[old(self).results().len() as int],
                        old(self).percent(),
                        None,
                        Some(zero_maximum_message()),
                    )
                } else {
                    final(self).results() == old(self).results() && final(self).pending() == Some(
                        scaled_luminance(v.maximum, old(self).percent()) as u16,
                    )
                },
                None => final(self).pending() is None && final(self).results().len() == old(
                    self,
                ).results().len() + 1 && final(self).results().subrange(
                    0,
                    old(self).results().len() as int,
                ) == old(self).results() && result_is(
                    final(self).results()[old(self).results().len() as int],
                    old(self).targets()[old(self).results().len() as int],
                    old(self).percent(),
                    None,
                    Some(no_luminance_message()),
                ),
            },
    {
        match reading {
            None => {
                self.record(None, Some("display does not provide VCP luminance (0x10)".to_owned()));
            },
            Some(v) => {
                if v.maximum == 0 {
                    self.record(
                        None,
                        Some("display reported a maximum luminance of zero".to_owned()),
                    );
                } else {
                    self.pending = Some(luminance_for(v.maximum, self.percent));
                }
            },
        }
    }

    /// Takes the outcome of writing the pending value to the current display.
    pub fn on_write(&mut self, written: bool)
        requires
            old(self).wf(),
            old(self).next() is WriteLuminance,
        ensures
            final(self).wf(),
            final(self).percent() == old(self).percent(),
            final(self).targets() == old(self).targets(),
            final(self).steps_left() < old(self).steps_left(),
            final(self).pending() is None,
            final(self).results().len() == old(self).results().len() + 1,
            final(self).results().subrange(0, old(self).results().len() as int) == old(
                self,
            ).results(),
            result_is(
                final(self).results()[old(self).results().len() as int],
                old(self).targets()[old(self).results().len() as int],
                old(self).percent(),
                if written {
                    old(self).pending()
                } else {
                    None
                },
                if written {
                    None
                } else {
                    Some(write_failed_message())
                },
            ),
    {
        let value = match self.pending {
            Some(v) => v,
            None => 0,
        };
        if written {
            self.record(Some(value), None);
        } else {
            self.record(None, Some("could not set VCP luminance (0x10)".to_owned()));
        }
    }

    /// Whether every selected display has been handled.
    pub fn is_finished(&self) -> (b: bool)
        requires
            self.wf(),
        ensures
            b == (self.next() is Finished),
    {
        self.results.len() >= self.targets.len()
    }

    /// The command result of a finished job: every outcome, and `ok` exactly when no display
    /// failed.
    pub fn finish(self) -> (c: CommandResult)
        requires
            self.wf(),
            self.next() is Finished,
        ensures
            c.results@ == self.results(),
            c.results@.len() == self.targets().len(),
            c.error is None,
            c.ok == forall|k: int| 0 <= k < c.results@.len() ==> (#[trigger] c.results@[k]).error is None,
    {
        let mut ok = true;
        let mut k: usize = 0;
        while k < self.results.len()
            invariant
                k <= self.results@.len(),
                ok == forall|q: int| 0 <= q < k ==> (#[trigger] self.results@[q]).error is None,
            decreases self.results@.len() - k,
        {
            if self.results[k].error.is_some() {
                ok = false;
            }
            k = k + 1;
        }
        CommandResult { ok, error: None, results: self.results }
    }
}

/// A percentage means the same share of every display's range: the raw value never exceeds
/// the reported maximum, 100 percent is the maximum, 0 percent is zero, and a higher
/// percentage never gives a lower value.
pub proof fn lemma_luminance_scaling(maximum: u16, p: u8, q: u8)
    requires
        p <= q <= 100,
    ensures
        0 <= scaled_luminance(maximum, p) <= scaled_luminance(maximum, q) <= maximum,
        scaled_luminance(maximum, 100) == maximum,
        scaled_luminance(maximum, 0) == 0,
{
    assert(maximum * p <= maximum * q) by (nonlinear_arith)
        requires
            p <= q,
    ;
    assert(maximum * q <= maximum * 100) by (nonlinear_arith)
        requires
            q <= 100,
    ;
    assert(0 <= maximum * p) by (nonlinear_arith);
    assert((maximum * p) / 100 <= (maximum * q) / 100) by (nonlinear_arith)
        requires
            maximum * p <= maximum * q,
    ;
    assert((maximum * q) / 100 <= (maximum * 100) / 100) by (nonlinear_arith)
        requires
            maximum * q <= maximum * 100,
    ;
}

/// A fresh job needs at most two DDC/CI operations per selected display, and the bound falls
/// with every operation (see `on_read` and `on_write`), so every selected display is attempted
/// and the job finishes.
pub proof fn lemma_job_budget(job: BrightnessJob, displays: Seq<DisplayInfo>, target: DisplayTarget, brightness: u8)
    requires
        job_started(job, displays, target, brightness),
    ensures
        job.steps_left() == 2 * job.targets().len(),
        job.steps_left() == 0 <==> job.next() is Finished,
{
}

/// A brightness job driven from its start to `Finished` (through `on_read` and `on_write`,
/// which keep its targets and percentage) has tried every selected display exactly once, in
/// the order of the selection: one outcome per display, each either an applied value or an
/// error, for the requested percentage.
pub proof fn lemma_brightness_run(
    start: BrightnessJob,
    end: BrightnessJob,
    displays: Seq<DisplayInfo>,
    target: DisplayTarget,
    brightness: u8,
)
    requires
        job_started(start, displays, target, brightness),
        end.wf(),
        end.targets() == start.targets(),
        end.percent() == start.percent(),
        end.next() is Finished,
    ensures
        target.selection(displays.len()) matches Ok(sel) && end.results().len() == sel.len()
            && forall|k: int|
            0 <= k < sel.len() ==> {
                let r = #[trigger] end.results()[k];
                &&& r.index == sel[k]
                &&& r.id@ == displays[sel[k] as int].id@
                &&& r.name@ == display_name(displays[sel[k] as int])
                &&& r.requested_percent == brightness
                &&& (r.applied_vcp_value is Some) != (r.error is Some)
            },
{
    let sel = target.selection(displays.len())->Ok_0;
    assert forall|k: int| 0 <= k < sel.len() implies {
        let r = #[trigger] end.results()[k];
        &&& r.index == sel[k]
        &&& r.id@ == displays[sel[k] as int].id@
        &&& r.name@ == display_name(displays[sel[k] as int])
        &&& r.requested_percent == brightness
        &&& (r.applied_vcp_value is Some) != (r.error is Some)
    } by {
        assert(status_of(start.targets()[k], sel[k] as int, displays[sel[k] as int]));
    }
}

/// `maximum * percent / 100`, the raw luminance for a percentage.
pub fn luminance_for(maximum: u16, percent: u8) -> (value: u16)
    requires
        percent <= 100,
    ensures
        value == scaled_luminance(maximum, percent),
        value * 100 <= maximum * percent < (value + 1) * 100,
{
    assert(maximum * percent <= maximum * 100) by (nonlinear_arith)
        requires
            percent <= 100,
    ;
    proof {
        lemma_luminance_exact(maximum, percent);
    }
    ((maximum as u32) * (percent as u32) / 100) as u16
}

/// The luminance for a percentage is the floor of `maximum * percent / 100`: the largest value
/// whose hundredfold does not exceed `maximum * percent`.
pub proof fn lemma_luminance_exact(maximum: u16, percent: u8)
    requires
        percent <= 100,
    ensures
        0 <= scaled_luminance(maximum, percent) <= maximum,
        scaled_luminance(maximum, percent) * 100 <= maximum * percent,
        maximum * percent < (scaled_luminance(maximum, percent) + 1) * 100,
{
    let p = maximum * percent;
    assert(0 <= p <= maximum * 100) by (nonlinear_arith)
        requires
            percent <= 100,
            p == maximum * percent,
    ;
    let v = scaled_luminance(maximum, percent);
    assert(v == p / 100);
    assert(v * 100 <= p < (v + 1) * 100) by (nonlinear_arith)
        requires
            v == p / 100,
            p >= 0,
    ;
    assert(v <= maximum) by (nonlinear_arith)
        requires
            v * 100 <= p,
            p <= maximum * 100,
    ;
}

/// A readable feature publishes exactly its value, maximum and value type, in that order; only
/// an unreadable one publishes `null`, then in all three messages.
pub proof fn lemma_feature_payloads(
    ps: Seq<Publication>,
    display_topic: Seq<char>,
    topic: Seq<char>,
    reading: Option<VcpValue>,
)
    requires
        feature_publications(ps, display_topic, topic, reading),
    ensures
        ps.len() == 3,
        match reading {
            Some(v) => {
                &&& ps[0].payload == Payload::Number(v.value as u64)
                &&& ps[1].payload == Payload::Number(v.maximum as u64)
                &&& ps[2].payload == Payload::Number(v.ty as u64)
            },
            None => ps[0].payload == Payload::Null && ps[1].payload == Payload::Null && ps[2].payload
                == Payload::Null,
        },
        forall|j: int| 0 <= j < 3 ==> ((#[trigger] ps[j]).payload is Null <==> reading is None),
{
    assert(ps[0] == ps[0] && ps[1] == ps[1] && ps[2] == ps[2]);
}

} // verus!
