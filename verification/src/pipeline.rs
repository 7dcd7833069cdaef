//! The assembly plan of the recording pipeline.
//!
//! The media engine builds element graphs from opaque handles; what this
//! module verifies is the plan handed to it: which elements are created under
//! which names, how they are parameterised, and how they are linked. The
//! topology is fixed: a capture source fans out through a tee into a recording
//! branch (rate and colour conversion, H.264 encoding, queueing) and a live
//! preview branch ending in a sample-callback sink; an audio branch and the
//! video recording branch meet in a Matroska muxer writing to a file sink.
use vstd::prelude::*;
use vstd::string::StringExecFns;

verus! {

/// Frame rates the recording pipeline can be asked for.
#[derive(Copy, Clone, Debug, Eq, PartialEq, Structural)]
pub enum FrameRate {
    F24,
    F30,
}

impl FrameRate {
    pub open spec fn fps_spec(&self) -> i32 {
        match *self {
            FrameRate::F24 => 24,
            FrameRate::F30 => 30,
        }
    }

    /// Frames per second as an integer count.
    pub fn fps(&self) -> (r: i32)
        ensures
            r == self.fps_spec(),
    {
        match *self {
            FrameRate::F24 => 24,
            FrameRate::F30 => 30,
        }
    }
}

impl Default for FrameRate {
    fn default() -> (r: Self)
        ensures
            r == FrameRate::F24,
    {
        FrameRate::F24
    }
}

/// The greatest common divisor, by Euclid's rule.
pub open spec fn gcd(a: nat, b: nat) -> nat
    decreases b,
{
    if b == 0 {
        a
    } else {
        gcd(b, a % b)
    }
}

/// Relies on num_rational::Ratio::<i32>::new and its numer and denom
/// accessors: for a positive fraction, `new` divides both parts by their
/// greatest common divisor and keeps the denominator positive.
#[verifier::external_body]
fn reduced_fraction(numer: i32, denom: i32) -> (r: (i32, i32))
    requires
        1 <= numer,
        1 <= denom,
    ensures
        r.0 == numer as int / gcd(numer as nat, denom as nat) as int,
        r.1 == denom as int / gcd(numer as nat, denom as nat) as int,
{
    let ratio = num_rational::Ratio::new(numer, denom);
    (*ratio.numer(), *ratio.denom())
}

/// Anything and one are coprime.
proof fn lemma_gcd_with_one(a: nat)
    ensures
        gcd(a, 1) == 1,
{
    reveal_with_fuel(gcd, 3);
    assert(a % 1 == 0);
}

/// The frame rate as the reduced fraction the engine's capability fields
/// take: frames over one second.
pub fn framerate_fraction(rate: FrameRate) -> (r: (i32, i32))
    ensures
        r.0 == rate.fps_spec(),
        r.1 == 1,
{
    let fps = rate.fps();
    let r = reduced_fraction(fps, 1);
    proof {
        lemma_gcd_with_one(fps as nat);
        assert(r.1 == 1int / 1int);
    }
    r
}

/// What an element does; each kind names one engine element factory.
#[derive(Copy, Clone, Debug, Eq, PartialEq, Structural)]
pub enum ElementKind {
    /// Camera or desktop video capture.
    VideoSource,
    /// One-to-many fan-out.
    Tee,
    /// Buffering queue.
    Queue,
    /// Sink that hands each sample to a callback.
    AppSink,
    /// Frame-rate conversion.
    RateAdjust,
    /// Colour-space conversion.
    ColorConvert,
    /// Capability constraint.
    CapsFilter,
    /// H.264 video encoder.
    VideoEncoder,
    /// Audio capture.
    AudioSource,
    /// AAC audio encoder.
    AudioEncoder,
    /// Matroska container muxer.
    Muxer,
    /// Writes the muxed stream to a file.
    FileSink,
}

/// The engine factory that builds each kind of element.
pub open spec fn factory_name_spec(k: ElementKind) -> Seq<char> {
    match k {
        ElementKind::VideoSource => "v4l2src"@,
        ElementKind::Tee => "tee"@,
        ElementKind::Queue => "queue2"@,
        ElementKind::AppSink => "appsink"@,
        ElementKind::RateAdjust => "videorate"@,
        ElementKind::ColorConvert => "videoconvert"@,
        ElementKind::CapsFilter => "capsfilter"@,
        ElementKind::VideoEncoder => "x264enc"@,
        ElementKind::AudioSource => "alsasrc"@,
        ElementKind::AudioEncoder => "voaacenc"@,
        ElementKind::Muxer => "matroskamux"@,
        ElementKind::FileSink => "filesink"@,
    }
}

impl ElementKind {
    /// The engine factory to request this element from.
    pub fn factory_name(&self) -> (r: &'static str)
        ensures
            r@ == factory_name_spec(*self),
    {
        match *self {
            ElementKind::VideoSource => "v4l2src",
            ElementKind::Tee => "tee",
            ElementKind::Queue => "queue2",
            ElementKind::AppSink => "appsink",
            ElementKind::RateAdjust => "videorate",
            ElementKind::ColorConvert => "videoconvert",
            ElementKind::CapsFilter => "capsfilter",
            ElementKind::VideoEncoder => "x264enc",
            ElementKind::AudioSource => "alsasrc",
            ElementKind::AudioEncoder => "voaacenc",
            ElementKind::Muxer => "matroskamux",
            ElementKind::FileSink => "filesink",
        }
    }
}

/// A value in a capability constraint.
#[derive(Clone, Debug, Eq, PartialEq)]
pub enum CapsValue {
    Fraction(i32, i32),
    Int(i32),
    Text(String),
}

/// One named field of a capability constraint.
#[derive(Clone, Debug, Eq, PartialEq)]
pub struct CapsField {
    pub key: String,
    pub value: CapsValue,
}

/// A capability constraint: a media type plus named fields.
#[derive(Clone, Debug, Eq, PartialEq)]
pub struct CapsSpec {
    pub media: String,
    pub fields: Vec<CapsField>,
}

/// A value assigned to a named element property.
#[derive(Clone, Debug, Eq, PartialEq)]
pub enum PropValue {
    U32(u32),
    U64(u64),
    I32(i32),
    Bool(bool),
    Text(String),
    Caps(CapsSpec),
}

/// One named element property.
#[derive(Clone, Debug, Eq, PartialEq)]
pub struct Property {
    pub key: String,
    pub value: PropValue,
}

/// One element of the plan: its kind, its unique name, and its properties.
#[derive(Clone, Debug, Eq, PartialEq)]
pub struct ElementSpec {
    pub kind: ElementKind,
    pub name: String,
    pub props: Vec<Property>,
}

/// A static link from one element's source pad to another's sink pad.
/// Both ends index into the plan's element list.
#[derive(Copy, Clone, Debug, Eq, PartialEq, Structural)]
pub struct Link {
    pub from: usize,
    pub to: usize,
}

/// A link that first requests a fan-out pad from the tee.
#[derive(Copy, Clone, Debug, Eq, PartialEq, Structural)]
pub struct PadLink {
    pub tee: usize,
    pub sink: usize,
}

/// Everything the engine needs to assemble the recording pipeline.
#[derive(Clone, Debug, Eq, PartialEq)]
pub struct PipelinePlan {
    pub elements: Vec<ElementSpec>,
    pub links: Vec<Link>,
    pub pad_links: Vec<PadLink>,
    /// The capability constraint set on the preview sink itself.
    pub appsink_caps: CapsSpec,
}

impl PipelinePlan {
    /// Every link end names an element of the plan, and every fan-out link
    /// starts at a tee.
    pub open spec fn wf(&self) -> bool {
        &&& forall|i: int|
            0 <= i < self.links@.len() ==> self.links@[i].from < self.elements@.len()
                && self.links@[i].to < self.elements@.len()
        &&& forall|i: int|
            0 <= i < self.pad_links@.len() ==> self.pad_links@[i].tee < self.elements@.len()
                && self.pad_links@[i].sink < self.elements@.len()
        &&& forall|i: int|
            0 <= i < self.pad_links@.len() ==> self.elements@[self.pad_links@[i].tee as int].kind
                == ElementKind::Tee
    }
}

/// The name of the plan's element at each index.
pub open spec fn plan_name(i: int) -> Seq<char> {
    if i == 0 {
        "desktop-video-source"@
    } else if i == 1 {
        "video_tee"@
    } else if i == 2 {
        "video_queue0"@
    } else if i == 3 {
        "desktop-video-framerate"@
    } else if i == 4 {
        "desktop-video-converter"@
    } else if i == 5 {
        "desktop-video-raw-caps"@
    } else if i == 6 {
        "desktop-video-encoder"@
    } else if i == 7 {
        "desktop-video-encoder-caps"@
    } else if i == 8 {
        "desktop-video-queue-1"@
    } else if i == 9 {
        "video_queue1"@
    } else if i == 10 {
        "desktop-video-framerate1"@
    } else if i == 11 {
        "desktop-video-converter1"@
    } else if i == 12 {
        "video_sink"@
    } else if i == 13 {
        "desktop-audio-source"@
    } else if i == 14 {
        "desktop-raw-audio-caps"@
    } else if i == 15 {
        "desktop-audio-queue"@
    } else if i == 16 {
        "desktop-audio-encoder"@
    } else if i == 17 {
        "mkv-muxer"@
    } else if i == 18 {
        "mkv-filesink"@
    } else {
        Seq::empty()
    }
}

/// The kind of the plan's element at each index.
pub open spec fn plan_kind(i: int) -> ElementKind {
    if i == 0 {
        ElementKind::VideoSource
    } else if i == 1 {
        ElementKind::Tee
    } else if i == 2 {
        ElementKind::Queue
    } else if i == 3 {
        ElementKind::RateAdjust
    } else if i == 4 {
        ElementKind::ColorConvert
    } else if i == 5 {
        ElementKind::CapsFilter
    } else if i == 6 {
        ElementKind::VideoEncoder
    } else if i == 7 {
        ElementKind::CapsFilter
    } else if i == 8 {
        ElementKind::Queue
    } else if i == 9 {
        ElementKind::Queue
    } else if i == 10 {
        ElementKind::RateAdjust
    } else if i == 11 {
        ElementKind::ColorConvert
    } else if i == 12 {
        ElementKind::AppSink
    } else if i == 13 {
        ElementKind::AudioSource
    } else if i == 14 {
        ElementKind::CapsFilter
    } else if i == 15 {
        ElementKind::Queue
    } else if i == 16 {
        ElementKind::AudioEncoder
    } else if i == 17 {
        ElementKind::Muxer
    } else {
        ElementKind::FileSink
    }
}

/// The static links of the plan: source into tee, the recording chain, the
/// preview chain, the audio chain, and both branches into the muxer and on to
/// the file sink.
pub open spec fn plan_links() -> Seq<Link> {
    seq![
        Link { from: 0usize, to: 1usize },
        Link { from: 2usize, to: 3usize },
        Link { from: 3usize, to: 4usize },
        Link { from: 4usize, to: 5usize },
        Link { from: 5usize, to: 6usize },
        Link { from: 6usize, to: 7usize },
        Link { from: 7usize, to: 8usize },
        Link { from: 9usize, to: 10usize },
        Link { from: 10usize, to: 11usize },
        Link { from: 11usize, to: 12usize },
        Link { from: 13usize, to: 14usize },
        Link { from: 14usize, to: 15usize },
        Link { from: 15usize, to: 16usize },
        Link { from: 8usize, to: 17usize },
        Link { from: 16usize, to: 17usize },
        Link { from: 17usize, to: 18usize },
    ]
}

/// The fan-out links of the plan: the tee feeds the recording queue and the
/// preview queue.
pub open spec fn plan_pad_links() -> Seq<PadLink> {
    seq![PadLink { tee: 1usize, sink: 2usize }, PadLink { tee: 1usize, sink: 9usize }]
}

/// A queue parameterised to bound its buffering by bytes alone.
pub open spec fn queue_props(props: Seq<Property>, max_bytes: u32) -> bool {
    &&& props.len() == 3
    &&& props[0].key@ == "max-size-bytes"@ && props[0].value == PropValue::U32(max_bytes)
    &&& props[1].key@ == "max-size-buffers"@ && props[1].value == PropValue::U32(0u32)
    &&& props[2].key@ == "max-size-time"@ && props[2].value == PropValue::U64(0u64)
}

/// The capture source is limited to a fixed number of buffers.
pub open spec fn source_props(props: Seq<Property>) -> bool {
    &&& props.len() == 1
    &&& props[0].key@ == "num-buffers"@ && props[0].value == PropValue::I32(3000i32)
}

/// The encoder's quality knobs: intra refresh, no rate-control buffer delay,
/// a floor on the quantiser, and a cap on the keyframe interval.
pub open spec fn encoder_props(props: Seq<Property>) -> bool {
    &&& props.len() == 4
    &&& props[0].key@ == "intra-refresh"@ && props[0].value == PropValue::Bool(true)
    &&& props[1].key@ == "vbv-buf-capacity"@ && props[1].value == PropValue::U32(0u32)
    &&& props[2].key@ == "qp-min"@ && props[2].value == PropValue::U32(30u32)
    &&& props[3].key@ == "key-int-max"@ && props[3].value == PropValue::U32(36u32)
}

/// Raw video at the requested frame rate.
pub open spec fn raw_video_caps_spec(c: CapsSpec, rate: FrameRate) -> bool {
    &&& c.media@ == "video/x-raw"@
    &&& c.fields@.len() == 1
    &&& c.fields@[0].key@ == "framerate"@
    &&& c.fields@[0].value == CapsValue::Fraction(rate.fps_spec(), 1i32)
}

/// H.264 constrained to the baseline profile.
pub open spec fn encoded_video_caps_spec(c: CapsSpec) -> bool {
    &&& c.media@ == "video/x-h264"@
    &&& c.fields@.len() == 1
    &&& c.fields@[0].key@ == "profile"@
    &&& c.fields@[0].value matches CapsValue::Text(s) && s@ == "constrained-baseline"@
}

/// Raw single-channel audio at the requested rate.
pub open spec fn raw_audio_caps_spec(c: CapsSpec, rate: FrameRate) -> bool {
    &&& c.media@ == "audio/x-raw"@
    &&& c.fields@.len() == 3
    &&& c.fields@[0].key@ == "framerate"@
    &&& c.fields@[0].value == CapsValue::Fraction(rate.fps_spec(), 1i32)
    &&& c.fields@[1].key@ == "channels"@ && c.fields@[1].value == CapsValue::Int(1i32)
    &&& c.fields@[2].key@ == "rate"@ && c.fields@[2].value == CapsValue::Int(48000i32)
}

/// The preview sink asks for separate-alpha RGBA with square pixels.
pub open spec fn preview_caps_spec(c: CapsSpec) -> bool {
    &&& c.media@ == "video/x-raw"@
    &&& c.fields@.len() == 2
    &&& c.fields@[0].key@ == "format"@
    &&& c.fields@[0].value matches CapsValue::Text(s) && s@ == "RGBA"@
    &&& c.fields@[1].key@ == "pixel-aspect-ratio"@
    &&& c.fields@[1].value == CapsValue::Fraction(1i32, 1i32)
}

/// A capsfilter carrying exactly one constraint under its `caps` property.
pub open spec fn caps_filter_props(props: Seq<Property>, ok: spec_fn(CapsSpec) -> bool) -> bool {
    &&& props.len() == 1
    &&& props[0].key@ == "caps"@
    &&& props[0].value matches PropValue::Caps(c) && ok(c)
}

/// The whole plan, pinned element by element: kinds, names, properties,
/// links, fan-out links and the preview sink's capabilities.
pub open spec fn plan_matches(p: PipelinePlan, location: Seq<char>, rate: FrameRate) -> bool {
    &&& p.elements@.len() == 19
    &&& forall|i: int|
        0 <= i < 19 ==> (#[trigger] p.elements@[i]).kind == plan_kind(i) && p.elements@[i].name@
            == plan_name(i)
    &&& source_props(p.elements@[0].props@)
    &&& p.elements@[1].props@.len() == 0
    &&& queue_props(p.elements@[2].props@, 512000000u32)
    &&& p.elements@[3].props@.len() == 0
    &&& p.elements@[4].props@.len() == 0
    &&& caps_filter_props(p.elements@[5].props@, |c: CapsSpec| raw_video_caps_spec(c, rate))
    &&& encoder_props(p.elements@[6].props@)
    &&& caps_filter_props(p.elements@[7].props@, |c: CapsSpec| encoded_video_caps_spec(c))
    &&& queue_props(p.elements@[8].props@, 0u32)
    &&& queue_props(p.elements@[9].props@, 512000000u32)
    &&& p.elements@[10].props@.len() == 0
    &&& p.elements@[11].props@.len() == 0
    &&& p.elements@[12].props@.len() == 0
    &&& p.elements@[13].props@.len() == 0
    &&& caps_filter_props(p.elements@[14].props@, |c: CapsSpec| raw_audio_caps_spec(c, rate))
    &&& queue_props(p.elements@[15].props@, 0u32)
    &&& p.elements@[16].props@.len() == 0
    &&& p.elements@[17].props@.len() == 0
    &&& p.elements@[18].props@.len() == 1
    &&& p.elements@[18].props@[0].key@ == "location"@
    &&& p.elements@[18].props@[0].value matches PropValue::Text(s) && s@ == location
    &&& p.links@ == plan_links()
    &&& p.pad_links@ == plan_pad_links()
    &&& preview_caps_spec(p.appsink_caps)
}

/// An element with no properties to set.
fn bare_element(kind: ElementKind, name: &'static str) -> (e: ElementSpec)
    ensures
        e.kind == kind,
        e.name@ == name@,
        e.props@.len() == 0,
{
    ElementSpec { kind, name: String::from_str(name), props: Vec::new() }
}

/// A buffering queue bounded by bytes alone.
fn queue_element(name: &'static str, max_bytes: u32) -> (e: ElementSpec)
    ensures
        e.kind == ElementKind::Queue,
        e.name@ == name@,
        queue_props(e.props@, max_bytes),
{
    let mut props: Vec<Property> = Vec::new();
    props.push(Property { key: String::from_str("max-size-bytes"), value: PropValue::U32(max_bytes) });
    props.push(Property { key: String::from_str("max-size-buffers"), value: PropValue::U32(0) });
    props.push(Property { key: String::from_str("max-size-time"), value: PropValue::U64(0) });
    ElementSpec { kind: ElementKind::Queue, name: String::from_str(name), props }
}

/// A capsfilter constraining its stream to the given capabilities.
fn caps_filter_element(name: &'static str, caps: CapsSpec) -> (e: ElementSpec)
    ensures
        e.kind == ElementKind::CapsFilter,
        e.name@ == name@,
        e.props@.len() == 1,
        e.props@[0].key@ == "caps"@,
        e.props@[0].value == PropValue::Caps(caps),
{
    let mut props: Vec<Property> = Vec::new();
    props.push(Property { key: String::from_str("caps"), value: PropValue::Caps(caps) });
    ElementSpec { kind: ElementKind::CapsFilter, name: String::from_str(name), props }
}

/// Assemble the plan of the recording pipeline that writes a Matroska file to
/// `location` while mirroring the captured video to the preview sink.
pub fn recording_plan(location: &str, rate: FrameRate) -> (p: PipelinePlan)
    ensures
        plan_matches(p, location@, rate),
        p.wf(),
{
    let fraction = framerate_fraction(rate);

    let raw_video_caps = CapsSpec {
        media: String::from_str("video/x-raw"),
        fields: {
            let mut fields: Vec<CapsField> = Vec::new();
            fields.push(CapsField {
                key: String::from_str("framerate"),
                value: CapsValue::Fraction(fraction.0, fraction.1),
            });
            fields
        },
    };
    let encoded_video_caps = CapsSpec {
        media: String::from_str("video/x-h264"),
        fields: {
            let mut fields: Vec<CapsField> = Vec::new();
            fields.push(CapsField {
                key: String::from_str("profile"),
                value: CapsValue::Text(String::from_str("constrained-baseline")),
            });
            fields
        },
    };
    let raw_audio_caps = CapsSpec {
        media: String::from_str("audio/x-raw"),
        fields: {
            let mut fields: Vec<CapsField> = Vec::new();
            fields.push(CapsField {
                key: String::from_str("framerate"),
                value: CapsValue::Fraction(fraction.0, fraction.1),
            });
            fields.push(CapsField { key: String::from_str("channels"), value: CapsValue::Int(1) });
            fields.push(CapsField { key: String::from_str("rate"), value: CapsValue::Int(48000) });
            fields
        },
    };
    let appsink_caps = CapsSpec {
        media: String::from_str("video/x-raw"),
        fields: {
            let mut fields: Vec<CapsField> = Vec::new();
            fields.push(CapsField {
                key: String::from_str("format"),
                value: CapsValue::Text(String::from_str("RGBA")),
            });
            fields.push(CapsField {
                key: String::from_str("pixel-aspect-ratio"),
                value: CapsValue::Fraction(1, 1),
            });
            fields
        },
    };

    let source = ElementSpec {
        kind: ElementKind::VideoSource,
        name: String::from_str("desktop-video-source"),
        props: {
            let mut props: Vec<Property> = Vec::new();
            props.push(Property { key: String::from_str("num-buffers"), value: PropValue::I32(3000) });
            props
        },
    };
    let encoder = ElementSpec {
        kind: ElementKind::VideoEncoder,
        name: String::from_str("desktop-video-encoder"),
        props: {
            let mut props: Vec<Property> = Vec::new();
            props.push(Property { key: String::from_str("intra-refresh"), value: PropValue::Bool(true) });
            props.push(Property { key: String::from_str("vbv-buf-capacity"), value: PropValue::U32(0) });
            props.push(Property { key: String::from_str("qp-min"), value: PropValue::U32(30) });
            props.push(Property { key: String::from_str("key-int-max"), value: PropValue::U32(36) });
            props
        },
    };
    let file_sink = ElementSpec {
        kind: ElementKind::FileSink,
        name: String::from_str("mkv-filesink"),
        props: {
            let mut props: Vec<Property> = Vec::new();
            props.push(Property {
                key: String::from_str("location"),
                value: PropValue::Text(String::from_str(location)),
            });
            props
        },
    };

    let mut elements: Vec<ElementSpec> = Vec::new();
    elements.push(source);
    elements.push(bare_element(ElementKind::Tee, "video_tee"));
    elements.push(queue_element("video_queue0", 512000000));
    elements.push(bare_element(ElementKind::RateAdjust, "desktop-video-framerate"));
    elements.push(bare_element(ElementKind::ColorConvert, "desktop-video-converter"));
    elements.push(caps_filter_element("desktop-video-raw-caps", raw_video_caps));
    elements.push(encoder);
    elements.push(caps_filter_element("desktop-video-encoder-caps", encoded_video_caps));
    elements.push(queue_element("desktop-video-queue-1", 0));
    elements.push(queue_element("video_queue1", 512000000));
    elements.push(bare_element(ElementKind::RateAdjust, "desktop-video-framerate1"));
    elements.push(bare_element(ElementKind::ColorConvert, "desktop-video-converter1"));
    elements.push(bare_element(ElementKind::AppSink, "video_sink"));
    elements.push(bare_element(ElementKind::AudioSource, "desktop-audio-source"));
    elements.push(caps_filter_element("desktop-raw-audio-caps", raw_audio_caps));
    elements.push(queue_element("desktop-audio-queue", 0));
    elements.push(bare_element(ElementKind::AudioEncoder, "desktop-audio-encoder"));
    elements.push(bare_element(ElementKind::Muxer, "mkv-muxer"));
    elements.push(file_sink);

    let mut links: Vec<Link> = Vec::new();
    links.push(Link { from: 0, to: 1 });
    links.push(Link { from: 2, to: 3 });
    links.push(Link { from: 3, to: 4 });
    links.push(Link { from: 4, to: 5 });
    links.push(Link { from: 5, to: 6 });
    links.push(Link { from: 6, to: 7 });
    links.push(Link { from: 7, to: 8 });
    links.push(Link { from: 9, to: 10 });
    links.push(Link { from: 10, to: 11 });
    links.push(Link { from: 11, to: 12 });
    links.push(Link { from: 13, to: 14 });
    links.push(Link { from: 14, to: 15 });
    links.push(Link { from: 15, to: 16 });
    links.push(Link { from: 8, to: 17 });
    links.push(Link { from: 16, to: 17 });
    links.push(Link { from: 17, to: 18 });

    let mut pad_links: Vec<PadLink> = Vec::new();
    pad_links.push(PadLink { tee: 1, sink: 2 });
    pad_links.push(PadLink { tee: 1, sink: 9 });

    proof {
        assert(links@ =~= plan_links());
        assert(pad_links@ =~= plan_pad_links());
    }

    PipelinePlan { elements, links, pad_links, appsink_caps }
}

/// A decision tree that recovers an element's index from its name's length
/// and a few of its characters. It exists only to drive the uniqueness proof.
spec fn name_fingerprint(s: Seq<char>) -> int {
    if s.len() == 20 {
        if s[8] == 'a' {
            13
        } else {
            0
        }
    } else if s.len() == 9 {
        if s[0] == 'v' {
            1
        } else {
            17
        }
    } else if s.len() == 12 {
        if s[0] == 'm' {
            18
        } else if s[11] == '0' {
            2
        } else {
            9
        }
    } else if s.len() == 23 {
        if s[14] == 'f' {
            3
        } else {
            4
        }
    } else if s.len() == 22 {
        if s[8] == 'r' {
            14
        } else {
            5
        }
    } else if s.len() == 21 {
        if s[8] == 'a' {
            16
        } else if s[14] == 'q' {
            8
        } else {
            6
        }
    } else if s.len() == 26 {
        7
    } else if s.len() == 24 {
        if s[14] == 'f' {
            10
        } else {
            11
        }
    } else if s.len() == 10 {
        12
    } else if s.len() == 19 {
        15
    } else {
        -1
    }
}

/// Each element's name fingerprints back to its own index.
proof fn lemma_name_fingerprint(i: int)
    requires
        0 <= i < 19,
    ensures
        name_fingerprint(plan_name(i)) == i,
{
    reveal_strlit("desktop-video-source");
    reveal_strlit("video_tee");
    reveal_strlit("video_queue0");
    reveal_strlit("desktop-video-framerate");
    reveal_strlit("desktop-video-converter");
    reveal_strlit("desktop-video-raw-caps");
    reveal_strlit("desktop-video-encoder");
    reveal_strlit("desktop-video-encoder-caps");
    reveal_strlit("desktop-video-queue-1");
    reveal_strlit("video_queue1");
    reveal_strlit("desktop-video-framerate1");
    reveal_strlit("desktop-video-converter1");
    reveal_strlit("video_sink");
    reveal_strlit("desktop-audio-source");
    reveal_strlit("desktop-raw-audio-caps");
    reveal_strlit("desktop-audio-queue");
    reveal_strlit("desktop-audio-encoder");
    reveal_strlit("mkv-muxer");
    reveal_strlit("mkv-filesink");
}

/// The engine requires element names to be unique within a pipeline, and the
/// plan's are: no two elements share a name.
pub proof fn lemma_plan_names_unique(p: PipelinePlan, location: Seq<char>, rate: FrameRate)
    requires
        plan_matches(p, location, rate),
    ensures
        forall|i: int, j: int|
            0 <= i < p.elements@.len() && 0 <= j < p.elements@.len() && i != j ==> (
            #[trigger] p.elements@[i]).name@ != (#[trigger] p.elements@[j]).name@,
{
    assert forall|i: int, j: int|
        0 <= i < p.elements@.len() && 0 <= j < p.elements@.len() && i != j implies (
    #[trigger] p.elements@[i]).name@ != (#[trigger] p.elements@[j]).name@ by {
        lemma_name_fingerprint(i);
        lemma_name_fingerprint(j);
    }
}

} // verus!
