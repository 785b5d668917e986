//! The metadata that describes the media to the renderer, and the payload
//! that hands it over.

use crate::config::{DEFAULT_DLNA_VIDEO_TITLE, DLNA_INSTANCE_ID};
use crate::digits::{decimal_text, lemma_decimal_round_trip, push_decimal};
use crate::error::Error;
use crate::media::streaming::{
    mime_for_extension, mime_of, subtitle_mime_of, MediaStreamingServer, ServerView,
};
use crate::utils::address::ServerAddr;
use crate::text::{
    lemma_occurs_in_append, lemma_occurs_in_prepend, lemma_occurs_in_self, occurs_in,
    push_chars, push_str, string_of,
};
use vstd::prelude::*;
use vstd::string::*;

verus! {

/// The start of the root element
pub const DIDL_TAG: &'static str = "<DIDL-Lite";

/// The namespaces of the root element, and the item up to its title
pub const DIDL_OPEN: &'static str =
    " xmlns=\"urn:schemas-upnp-org:metadata-1-0/DIDL-Lite/\" xmlns:dc=\"http://purl.org/dc/elements/1.1/\" xmlns:upnp=\"urn:schemas-upnp-org:metadata-1-0/upnp/\" xmlns:dlna=\"urn:schemas-dlna-org:metadata-1-0/\" xmlns:sec=\"http://www.sec.co.kr/\" xmlns:xbmc=\"urn:schemas-xbmc-org:metadata-1-0/\"><item id=\"0\" parentID=\"-1\" restricted=\"1\"><dc:title>";

/// From the title to the MIME type of the primary resource
pub const DIDL_RES: &'static str = "</dc:title><res protocolInfo=\"http-get:*:";

/// The end of the opening tag of a primary resource without subtitle
pub const DIDL_RES_PLAIN: &'static str = ":*\">";

/// The start of the subtitle attributes of the primary resource
pub const DIDL_RES_PV: &'static str = ":*\" xmlns:pv=\"http://www.pv.com/pvns/\" pv:";

/// The name of the attribute that holds the subtitle URI
pub const DIDL_SUBTITLE_FILE_URI: &'static str = "subtitleFileUri";

/// What opens the value of an attribute
pub const DIDL_ATTR_OPEN: &'static str = "=\"";

/// The attribute that holds the subtitle type
pub const DIDL_RES_SUBTITLE_TYPE: &'static str = "\" pv:subtitleFileType=\"";

/// What closes the value of an attribute and its tag
pub const DIDL_RES_END: &'static str = "\">";

/// The caption resource for SubRip
pub const DIDL_CAPTION_SRT: &'static str = "</res><res protocolInfo=\"http-get:*:text/srt:*\">";

/// The caption resource for SAMI
pub const DIDL_CAPTION_SMI: &'static str = "</res><res protocolInfo=\"http-get:*:smi/caption:*\">";

/// The start of the first caption element
pub const DIDL_CAPTION_SEC: &'static str = "</res><sec:";

/// The name both caption elements start with
pub const DIDL_CAPTION_MARK: &'static str = "CaptionInfo";

/// The rest of the name of the first caption element, and its type attribute
pub const DIDL_CAPTION_EX_TYPE: &'static str = "Ex sec:type=\"";

/// The second caption element up to its type
pub const DIDL_CAPTION_INFO: &'static str = "</sec:CaptionInfoEx><sec:CaptionInfo sec:type=\"";

/// The end of a block with captions
pub const DIDL_CLOSE_CAPTIONED: &'static str =
    "</sec:CaptionInfo><upnp:class>object.item.videoItem.movie</upnp:class></item></DIDL-Lite>";

/// The end of a block without captions
pub const DIDL_CLOSE_PLAIN: &'static str =
    "</res><upnp:class>object.item.videoItem.movie</upnp:class></item></DIDL-Lite>";

/// The entity that stands for a character inside an attribute value; the
/// character itself where it needs none.
pub open spec fn escape_char(c: char) -> Seq<char> {
    if c == '<' {
        "&lt;"@
    } else if c == '>' {
        "&gt;"@
    } else if c == '"' {
        "&quot;"@
    } else if c == '\'' {
        "&apos;"@
    } else if c == '&' {
        "&amp;"@
    } else if c == '\n' {
        "&#xA;"@
    } else if c == '\r' {
        "&#xD;"@
    } else {
        seq![c]
    }
}

/// A text with every character that has an entity replaced by it.
pub open spec fn attribute_escaped(s: Seq<char>) -> Seq<char>
    decreases s.len(),
{
    if s.len() == 0 {
        Seq::<char>::empty()
    } else {
        attribute_escaped(s.drop_last()) + escape_char(s.last())
    }
}

/// Calls `xml::escape::escape_str_attribute`, which replaces `<`, `>`, `"`,
/// `'`, `&`, line feed and carriage return by their entities and leaves
/// every other character as it is.
#[verifier::external_body]
fn escape_attribute(s: &str) -> (r: String)
    ensures
        r@ == attribute_escaped(s@),
{
    xml::escape::escape_str_attribute(s).into_owned()
}

/// How every metadata block starts: the root element up to the MIME type of
/// the video.
pub open spec fn didl_head(title: Seq<char>, video_type: Seq<char>) -> Seq<char> {
    DIDL_TAG@ + DIDL_OPEN@ + title + DIDL_RES@ + video_type
}

/// The metadata of a video without subtitle, before escaping.
pub open spec fn didl_plain(title: Seq<char>, video_uri: Seq<char>, video_type: Seq<char>) -> Seq<
    char,
> {
    didl_head(title, video_type) + DIDL_RES_PLAIN@ + video_uri + DIDL_CLOSE_PLAIN@
}

/// The rest of the primary resource of a captioned video, and the two
/// caption resources after it.
pub open spec fn didl_resources(
    video_uri: Seq<char>,
    subtitle_uri: Seq<char>,
    subtitle_type: Seq<char>,
) -> Seq<char> {
    DIDL_ATTR_OPEN@ + subtitle_uri + DIDL_RES_SUBTITLE_TYPE@ + subtitle_type + DIDL_RES_END@
        + video_uri + DIDL_CAPTION_SRT@ + subtitle_uri + DIDL_CAPTION_SMI@ + subtitle_uri
        + DIDL_CAPTION_SEC@
}

/// The two caption elements of a captioned video, and the end of the block.
pub open spec fn didl_captions(subtitle_uri: Seq<char>, subtitle_type: Seq<char>) -> Seq<char> {
    DIDL_CAPTION_EX_TYPE@ + subtitle_type + DIDL_RES_END@ + subtitle_uri + DIDL_CAPTION_INFO@
        + subtitle_type + DIDL_RES_END@ + subtitle_uri + DIDL_CLOSE_CAPTIONED@
}

/// The metadata of a video with a subtitle, before escaping.
pub open spec fn didl_captioned(
    title: Seq<char>,
    video_uri: Seq<char>,
    video_type: Seq<char>,
    subtitle_uri: Seq<char>,
    subtitle_type: Seq<char>,
) -> Seq<char> {
    didl_head(title, video_type) + DIDL_RES_PV@ + DIDL_SUBTITLE_FILE_URI@ + didl_resources(
        video_uri,
        subtitle_uri,
        subtitle_type,
    ) + DIDL_CAPTION_MARK@ + didl_captions(subtitle_uri, subtitle_type)
}

/// The metadata of a session, before escaping: captioned where the session
/// has a subtitle, plain where it has none.
pub open spec fn didl_of(s: ServerView) -> Seq<char> {
    match s.subtitle_file {
        Some(sub) => didl_captioned(
            DEFAULT_DLNA_VIDEO_TITLE@,
            s.video_file.uri(),
            mime_of(s.video_file.file_path),
            sub.uri(),
            subtitle_mime_of(sub.file_path),
        ),
        None => didl_plain(
            DEFAULT_DLNA_VIDEO_TITLE@,
            s.video_file.uri(),
            mime_of(s.video_file.file_path),
        ),
    }
}

/// The metadata of a session as it is embedded in the control payload.
pub open spec fn metadata_of(s: ServerView) -> Seq<char> {
    attribute_escaped(didl_of(s))
}

/// The payload of the action that hands a URI and its metadata over.
pub open spec fn set_uri_payload(instance_id: u32, uri: Seq<char>, metadata: Seq<char>) -> Seq<
    char,
> {
    "\n        <InstanceID>"@ + decimal_text(instance_id as nat)
        + "</InstanceID>\n        <CurrentURI>"@ + uri
        + "</CurrentURI>\n        <CurrentURIMetaData>"@ + metadata
        + "</CurrentURIMetaData>\n        "@
}

/// Builds the metadata XML for the media content; this never fails.
pub fn build_metadata(streaming_server: &MediaStreamingServer) -> (r: Result<String, Error>)
    ensures
        r.is_ok(),
        r.unwrap()@ == metadata_of(streaming_server@),
{
    let video_uri = streaming_server.video_uri();
    let video_type = streaming_server.video_type();
    let mut head: Vec<char> = Vec::new();
    push_str(&mut head, DIDL_TAG);
    push_str(&mut head, DIDL_OPEN);
    push_str(&mut head, DEFAULT_DLNA_VIDEO_TITLE);
    push_str(&mut head, DIDL_RES);
    push_str(&mut head, video_type.as_str());
    let mut out: Vec<char> = Vec::new();
    push_chars(&mut out, &head);
    assert(out@ == head@);
    match streaming_server.subtitle_uri() {
        Some(subtitle_uri) => {
            let subtitle_type = match streaming_server.subtitle_type() {
                Some(t) => t,
                None => String::from_str("unknown"),
            };
            let mut resources: Vec<char> = Vec::new();
            push_str(&mut resources, DIDL_ATTR_OPEN);
            push_str(&mut resources, subtitle_uri.as_str());
            push_str(&mut resources, DIDL_RES_SUBTITLE_TYPE);
            push_str(&mut resources, subtitle_type.as_str());
            push_str(&mut resources, DIDL_RES_END);
            push_str(&mut resources, video_uri.as_str());
            push_str(&mut resources, DIDL_CAPTION_SRT);
            push_str(&mut resources, subtitle_uri.as_str());
            push_str(&mut resources, DIDL_CAPTION_SMI);
            push_str(&mut resources, subtitle_uri.as_str());
            push_str(&mut resources, DIDL_CAPTION_SEC);
            let mut captions: Vec<char> = Vec::new();
            push_str(&mut captions, DIDL_CAPTION_EX_TYPE);
            push_str(&mut captions, subtitle_type.as_str());
            push_str(&mut captions, DIDL_RES_END);
            push_str(&mut captions, subtitle_uri.as_str());
            push_str(&mut captions, DIDL_CAPTION_INFO);
            push_str(&mut captions, subtitle_type.as_str());
            push_str(&mut captions, DIDL_RES_END);
            push_str(&mut captions, subtitle_uri.as_str());
            push_str(&mut captions, DIDL_CLOSE_CAPTIONED);
            push_str(&mut out, DIDL_RES_PV);
            push_str(&mut out, DIDL_SUBTITLE_FILE_URI);
            push_chars(&mut out, &resources);
            push_str(&mut out, DIDL_CAPTION_MARK);
            push_chars(&mut out, &captions);
        },
        None => {
            push_str(&mut out, DIDL_RES_PLAIN);
            push_str(&mut out, video_uri.as_str());
            push_str(&mut out, DIDL_CLOSE_PLAIN);
        },
    }
    let didl = string_of(&out);
    Ok(escape_attribute(didl.as_str()))
}

/// Builds the SetAVTransportURI payload; this never fails.
pub fn build_setavtransporturi_payload(
    streaming_server: &MediaStreamingServer,
    metadata: &str,
) -> (r: Result<String, Error>)
    ensures
        r.is_ok(),
        r.unwrap()@ == set_uri_payload(
            DLNA_INSTANCE_ID,
            streaming_server@.video_file.uri(),
            metadata@,
        ),
{
    let video_uri = streaming_server.video_uri();
    let mut out: Vec<char> = Vec::new();
    push_str(&mut out, "\n        <InstanceID>");
    push_decimal(&mut out, DLNA_INSTANCE_ID as u64);
    push_str(&mut out, "</InstanceID>\n        <CurrentURI>");
    push_str(&mut out, video_uri.as_str());
    push_str(&mut out, "</CurrentURI>\n        <CurrentURIMetaData>");
    push_str(&mut out, metadata);
    push_str(&mut out, "</CurrentURIMetaData>\n        ");
    Ok(string_of(&out))
}

/// Whether a character is written as an entity.
pub open spec fn needs_escape(c: char) -> bool {
    c == '<' || c == '>' || c == '"' || c == '\'' || c == '&' || c == '\n' || c == '\r'
}

/// Whether a character is one of the markup characters that an entity
/// never holds.
pub open spec fn is_raw_markup(c: char) -> bool {
    c == '<' || c == '>' || c == '"' || c == '\'' || c == '\n' || c == '\r'
}

/// Escaping a text piece by piece gives the same as escaping it whole.
pub proof fn lemma_escaped_concat(a: Seq<char>, b: Seq<char>)
    ensures
        attribute_escaped(a + b) == attribute_escaped(a) + attribute_escaped(b),
    decreases b.len(),
{
    if b.len() == 0 {
        assert(a + b == a);
        assert(attribute_escaped(a) + Seq::<char>::empty() == attribute_escaped(a));
    } else {
        lemma_escaped_concat(a, b.drop_last());
        assert((a + b).drop_last() == a + b.drop_last());
        assert((a + b).last() == b.last());
        assert(attribute_escaped(a) + (attribute_escaped(b.drop_last()) + escape_char(b.last()))
            == (attribute_escaped(a) + attribute_escaped(b.drop_last())) + escape_char(
            b.last(),
        ));
    }
}

/// No entity holds a markup character.
pub proof fn lemma_escape_char_holds_no_markup(c: char)
    ensures
        forall|i: int| 0 <= i < escape_char(c).len() ==> !is_raw_markup(#[trigger] escape_char(c)[i]),
{
    reveal_strlit("&lt;");
    reveal_strlit("&gt;");
    reveal_strlit("&quot;");
    reveal_strlit("&apos;");
    reveal_strlit("&amp;");
    reveal_strlit("&#xA;");
    reveal_strlit("&#xD;");
}

/// An escaped text holds none of `<`, `>`, the two quotes, line feed and
/// carriage return.
pub proof fn lemma_escaped_holds_no_markup(s: Seq<char>)
    ensures
        forall|i: int|
            0 <= i < attribute_escaped(s).len() ==> !is_raw_markup(
                #[trigger] attribute_escaped(s)[i],
            ),
    decreases s.len(),
{
    if s.len() > 0 {
        lemma_escaped_holds_no_markup(s.drop_last());
        lemma_escape_char_holds_no_markup(s.last());
        let head = attribute_escaped(s.drop_last());
        let tail = escape_char(s.last());
        assert forall|i: int| 0 <= i < attribute_escaped(s).len() implies !is_raw_markup(
            #[trigger] attribute_escaped(s)[i],
        ) by {
            if i < head.len() {
                assert(attribute_escaped(s)[i] == head[i]);
            } else {
                assert(attribute_escaped(s)[i] == tail[i - head.len()]);
            }
        }
    }
}

/// A text without any character that is written as an entity stays as it is.
pub proof fn lemma_escaped_plain(s: Seq<char>)
    requires
        forall|i: int| 0 <= i < s.len() ==> !needs_escape(#[trigger] s[i]),
    ensures
        attribute_escaped(s) == s,
    decreases s.len(),
{
    if s.len() > 0 {
        let t = s.drop_last();
        assert forall|i: int| 0 <= i < t.len() implies !needs_escape(#[trigger] t[i]) by {
            assert(t[i] == s[i]);
        }
        lemma_escaped_plain(t);
        assert(!needs_escape(s[s.len() - 1]));
        assert(t + seq![s.last()] == s);
    }
}

/// What occurs in the escaped form of a text occurs in the escaped form of
/// any text that continues it.
pub proof fn lemma_escaped_occurs_append(p: Seq<char>, more: Seq<char>, needle: Seq<char>)
    requires
        occurs_in(attribute_escaped(p), needle),
    ensures
        occurs_in(attribute_escaped(p + more), needle),
{
    lemma_escaped_concat(p, more);
    lemma_occurs_in_append(attribute_escaped(p), attribute_escaped(more), needle);
}

/// The escaped form of a text that ends in `piece` holds the escaped form
/// of `piece`.
pub proof fn lemma_escaped_occurs_last(p: Seq<char>, piece: Seq<char>)
    ensures
        occurs_in(attribute_escaped(p + piece), attribute_escaped(piece)),
{
    lemma_escaped_concat(p, piece);
    lemma_occurs_in_self(attribute_escaped(piece));
    lemma_occurs_in_prepend(attribute_escaped(p), attribute_escaped(piece), attribute_escaped(piece));
}

/// The metadata of every session is escaped: it holds no `<` nor any other
/// markup character, and it starts with the entity of `<`.
pub proof fn lemma_metadata_is_escaped(s: ServerView)
    ensures
        forall|i: int|
            0 <= i < metadata_of(s).len() ==> !is_raw_markup(#[trigger] metadata_of(s)[i]),
        metadata_of(s).len() >= 13,
        metadata_of(s).take(13) == "&lt;DIDL-Lite"@,
{
    lemma_escaped_holds_no_markup(didl_of(s));
    let tag = DIDL_TAG@;
    let rest = didl_of(s).skip(tag.len() as int);
    reveal_strlit("<DIDL-Lite");
    reveal_strlit("&lt;DIDL-Lite");
    reveal_strlit("&lt;");
    assert(didl_of(s) =~= tag + rest);
    lemma_escaped_concat(tag, rest);
    let lt = seq!['<'];
    let name = tag.skip(1);
    assert(tag =~= lt + name);
    lemma_escaped_concat(lt, name);
    assert forall|i: int| 0 <= i < name.len() implies !needs_escape(#[trigger] name[i]) by {
        assert(name[i] == tag[i + 1]);
    }
    lemma_escaped_plain(name);
    assert(lt.drop_last() =~= Seq::<char>::empty());
    assert(attribute_escaped(lt) =~= "&lt;"@) by {
        assert(attribute_escaped(lt) == attribute_escaped(lt.drop_last()) + escape_char(lt.last()));
        assert(attribute_escaped(Seq::<char>::empty()) =~= Seq::<char>::empty());
    }
    assert(attribute_escaped(tag) =~= "&lt;DIDL-Lite"@);
    assert(metadata_of(s) == attribute_escaped(tag) + attribute_escaped(rest));
    assert(metadata_of(s).take(13) =~= "&lt;DIDL-Lite"@);
}

/// The metadata of a session with a subtitle holds the caption markers and
/// the subtitle URI, escaped as the rest is.
pub proof fn lemma_captioned_metadata_markers(s: ServerView)
    requires
        s.subtitle_file.is_some(),
    ensures
        occurs_in(metadata_of(s), "CaptionInfo"@),
        occurs_in(metadata_of(s), "subtitleFileUri"@),
        occurs_in(metadata_of(s), attribute_escaped(s.subtitle_file.unwrap().uri())),
{
    let sub = s.subtitle_file.unwrap();
    let sub_uri = sub.uri();
    let sub_type = subtitle_mime_of(sub.file_path);
    let start = didl_head(DEFAULT_DLNA_VIDEO_TITLE@, mime_of(s.video_file.file_path))
        + DIDL_RES_PV@;
    let resources = didl_resources(s.video_file.uri(), sub_uri, sub_type);
    let captions = didl_captions(sub_uri, sub_type);
    let mark = DIDL_CAPTION_MARK@;
    let attr = DIDL_SUBTITLE_FILE_URI@;
    reveal_strlit("CaptionInfo");
    reveal_strlit("subtitleFileUri");
    lemma_escaped_plain(mark);
    lemma_escaped_plain(attr);
    lemma_escaped_occurs_last(start, attr);
    lemma_escaped_occurs_append(start + attr, resources, attr);
    lemma_escaped_occurs_append(start + attr + resources, mark, attr);
    lemma_escaped_occurs_append(start + attr + resources + mark, captions, attr);
    lemma_escaped_occurs_last(start + attr + resources, mark);
    lemma_escaped_occurs_append(start + attr + resources + mark, captions, mark);
    let before = DIDL_CAPTION_EX_TYPE@ + sub_type + DIDL_RES_END@ + sub_uri + DIDL_CAPTION_INFO@
        + sub_type + DIDL_RES_END@;
    lemma_escaped_occurs_last(before, sub_uri);
    lemma_escaped_occurs_append(before + sub_uri, DIDL_CLOSE_CAPTIONED@, attribute_escaped(sub_uri));
    lemma_escaped_concat(start + attr + resources + mark, captions);
    lemma_occurs_in_prepend(
        attribute_escaped(start + attr + resources + mark),
        attribute_escaped(captions),
        attribute_escaped(sub_uri),
    );
}

/// Whether a text is without a character.
pub open spec fn lacks(s: Seq<char>, c: char) -> bool {
    forall|i: int| 0 <= i < s.len() ==> #[trigger] s[i] != c
}

/// Two texts without a character are without it when joined.
pub proof fn lemma_lacks_concat(a: Seq<char>, b: Seq<char>, c: char)
    requires
        lacks(a, c),
        lacks(b, c),
    ensures
        lacks(a + b, c),
{
    assert forall|i: int| 0 <= i < (a + b).len() implies #[trigger] (a + b)[i] != c by {
        if i < a.len() {
            assert((a + b)[i] == a[i]);
        } else {
            assert((a + b)[i] == b[i - a.len()]);
        }
    }
}

/// A text without a character of a needle does not hold the needle.
pub proof fn lemma_lacks_excludes(hay: Seq<char>, needle: Seq<char>, k: int)
    requires
        0 <= k < needle.len(),
        lacks(hay, needle[k]),
    ensures
        !occurs_in(hay, needle),
{
    if occurs_in(hay, needle) {
        let i = choose|i: int|
            0 <= i && i + needle.len() <= hay.len() && #[trigger] hay.subrange(
                i,
                i + needle.len(),
            ) == needle;
        assert(hay.subrange(i, i + needle.len())[k] == hay[i + k]);
    }
}

/// Whether a character is one of the two capitals that the caption markers
/// hold and no entity does.
pub open spec fn is_marker_capital(c: char) -> bool {
    c == 'C' || c == 'F'
}

/// Escaping brings neither of the two capitals into a text.
pub proof fn lemma_escaped_lacks(s: Seq<char>, c: char)
    requires
        is_marker_capital(c),
        lacks(s, c),
    ensures
        lacks(attribute_escaped(s), c),
    decreases s.len(),
{
    if s.len() > 0 {
        let t = s.drop_last();
        assert forall|i: int| 0 <= i < t.len() implies #[trigger] t[i] != c by {
            assert(t[i] == s[i]);
        }
        lemma_escaped_lacks(t, c);
        reveal_strlit("&lt;");
        reveal_strlit("&gt;");
        reveal_strlit("&quot;");
        reveal_strlit("&apos;");
        reveal_strlit("&amp;");
        reveal_strlit("&#xA;");
        reveal_strlit("&#xD;");
        assert(s[s.len() - 1] != c);
        assert(lacks(escape_char(s.last()), c));
        lemma_lacks_concat(attribute_escaped(t), escape_char(s.last()), c);
    }
}

/// No MIME type of the table holds either of the two capitals.
pub proof fn lemma_mime_lacks(e: Seq<char>, c: char)
    requires
        is_marker_capital(c),
    ensures
        lacks(mime_for_extension(e), c),
{
    reveal_strlit("video/mp4");
    reveal_strlit("video/x-msvideo");
    reveal_strlit("video/x-matroska");
    reveal_strlit("video/quicktime");
    reveal_strlit("video/x-ms-wmv");
    reveal_strlit("video/x-flv");
    reveal_strlit("video/webm");
    reveal_strlit("video/x-m4v");
    reveal_strlit("video/3gpp");
    reveal_strlit("audio/mpeg");
    reveal_strlit("audio/wav");
    reveal_strlit("audio/flac");
    reveal_strlit("audio/aac");
    reveal_strlit("audio/ogg");
    reveal_strlit("audio/mp4");
    reveal_strlit("application/octet-stream");
}

/// An address written out holds neither of the two capitals.
pub proof fn lemma_address_lacks(addr: ServerAddr, c: char)
    requires
        is_marker_capital(c),
    ensures
        lacks(addr.text(), c),
{
    lemma_decimal_round_trip(addr.a as nat);
    lemma_decimal_round_trip(addr.b as nat);
    lemma_decimal_round_trip(addr.c as nat);
    lemma_decimal_round_trip(addr.d as nat);
    lemma_decimal_round_trip(addr.port as nat);
    let a = decimal_text(addr.a as nat).push('.');
    let b = decimal_text(addr.b as nat).push('.');
    let cc = decimal_text(addr.c as nat).push('.');
    let d = decimal_text(addr.d as nat).push(':');
    let p = decimal_text(addr.port as nat);
    assert(lacks(a, c)) by {
        assert forall|i: int| 0 <= i < a.len() implies #[trigger] a[i] != c by {
            if i < a.len() - 1 {
                assert(a[i] == decimal_text(addr.a as nat)[i]);
            }
        }
    }
    assert(lacks(b, c)) by {
        assert forall|i: int| 0 <= i < b.len() implies #[trigger] b[i] != c by {
            if i < b.len() - 1 {
                assert(b[i] == decimal_text(addr.b as nat)[i]);
            }
        }
    }
    assert(lacks(cc, c)) by {
        assert forall|i: int| 0 <= i < cc.len() implies #[trigger] cc[i] != c by {
            if i < cc.len() - 1 {
                assert(cc[i] == decimal_text(addr.c as nat)[i]);
            }
        }
    }
    assert(lacks(d, c)) by {
        assert forall|i: int| 0 <= i < d.len() implies #[trigger] d[i] != c by {
            if i < d.len() - 1 {
                assert(d[i] == decimal_text(addr.d as nat)[i]);
            }
        }
    }
    assert(lacks(p, c));
    lemma_lacks_concat(a, b, c);
    lemma_lacks_concat(a + b, cc, c);
    lemma_lacks_concat(a + b + cc, d, c);
    lemma_lacks_concat(a + b + cc + d, p, c);
}

/// The text around the title, the type and the URI of a video without
/// subtitle holds neither of the two capitals.
proof fn lemma_plain_template_lacks(c: char)
    requires
        is_marker_capital(c),
    ensures
        lacks(DIDL_TAG@, c),
        lacks(DIDL_OPEN@, c),
        lacks(DEFAULT_DLNA_VIDEO_TITLE@, c),
        lacks(DIDL_RES@, c),
        lacks(DIDL_RES_PLAIN@, c),
        lacks(DIDL_CLOSE_PLAIN@, c),
        lacks("http://"@, c),
{
    reveal_strlit("<DIDL-Lite");
    reveal_strlit(
        " xmlns=\"urn:schemas-upnp-org:metadata-1-0/DIDL-Lite/\" xmlns:dc=\"http://purl.org/dc/elements/1.1/\" xmlns:upnp=\"urn:schemas-upnp-org:metadata-1-0/upnp/\" xmlns:dlna=\"urn:schemas-dlna-org:metadata-1-0/\" xmlns:sec=\"http://www.sec.co.kr/\" xmlns:xbmc=\"urn:schemas-xbmc-org:metadata-1-0/\"><item id=\"0\" parentID=\"-1\" restricted=\"1\"><dc:title>",
    );
    reveal_strlit("crab-dlna Video");
    reveal_strlit("</dc:title><res protocolInfo=\"http-get:*:");
    reveal_strlit(":*\">");
    reveal_strlit(
        "</res><upnp:class>object.item.videoItem.movie</upnp:class></item></DIDL-Lite>",
    );
    reveal_strlit("http://");
}

/// The metadata of a session without subtitle holds neither caption marker.
pub proof fn lemma_plain_metadata_has_no_caption_marker(s: ServerView)
    requires
        s.wf(),
        s.subtitle_file.is_none(),
    ensures
        !occurs_in(metadata_of(s), "CaptionInfo"@),
        !occurs_in(metadata_of(s), "subtitleFileUri"@),
{
    reveal_strlit("CaptionInfo");
    reveal_strlit("subtitleFileUri");
    assert("CaptionInfo"@[0] == 'C');
    assert("subtitleFileUri"@[8] == 'F');
    lemma_plain_didl_lacks(s, 'C');
    lemma_plain_didl_lacks(s, 'F');
    lemma_escaped_lacks(didl_of(s), 'C');
    lemma_escaped_lacks(didl_of(s), 'F');
    lemma_lacks_excludes(metadata_of(s), "CaptionInfo"@, 0);
    lemma_lacks_excludes(metadata_of(s), "subtitleFileUri"@, 8);
}

proof fn lemma_plain_didl_lacks(s: ServerView, c: char)
    requires
        s.wf(),
        s.subtitle_file.is_none(),
        is_marker_capital(c),
    ensures
        lacks(didl_of(s), c),
{
    let title = DEFAULT_DLNA_VIDEO_TITLE@;
    let video_type = mime_of(s.video_file.file_path);
    let host = s.video_file.host_uri;
    let segment = s.video_file.file_uri;
    let uri = s.video_file.uri();
    lemma_plain_template_lacks(c);
    lemma_mime_lacks(crate::utils::media::lower_extension(s.video_file.file_path), c);
    lemma_address_lacks(s.server_addr, c);
    lemma_lacks_concat("http://"@, s.server_addr.text(), c);
    assert(lacks(segment, c));
    assert(lacks(host.push('/'), c)) by {
        assert forall|i: int| 0 <= i < host.push('/').len() implies #[trigger] host.push('/')[i]
            != c by {
            if i < host.len() {
                assert(host.push('/')[i] == host[i]);
            }
        }
    }
    lemma_lacks_concat(host.push('/'), segment, c);
    lemma_lacks_concat(DIDL_TAG@, DIDL_OPEN@, c);
    lemma_lacks_concat(DIDL_TAG@ + DIDL_OPEN@, title, c);
    lemma_lacks_concat(DIDL_TAG@ + DIDL_OPEN@ + title, DIDL_RES@, c);
    lemma_lacks_concat(DIDL_TAG@ + DIDL_OPEN@ + title + DIDL_RES@, video_type, c);
    let head = didl_head(title, video_type);
    lemma_lacks_concat(head, DIDL_RES_PLAIN@, c);
    lemma_lacks_concat(head + DIDL_RES_PLAIN@, uri, c);
    lemma_lacks_concat(head + DIDL_RES_PLAIN@ + uri, DIDL_CLOSE_PLAIN@, c);
}

} // verus!
