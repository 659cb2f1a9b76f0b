//! Notification formatter: maps a candidate post and its subscription into
//! a channel-ready payload. Pure except for the character-count truncation,
//! which an outside terminal-text crate performs behind an exact contract.

use vstd::prelude::*;
use crate::model::{
    candidate_fits_kind, Attachment, CandidatePost, FeedKind, Subscription,
};
use crate::normalize::{normalize, normalized};

verus! {

/// Character-count truncation: a string of at most `width` characters is
/// kept whole; a longer one is cut so that, with `tail` appended, exactly
/// `width` characters remain (the cut is never negative).
pub open spec fn truncated(s: Seq<char>, width: int, tail: Seq<char>) -> Seq<char> {
    if s.len() <= width {
        s
    } else {
        s.take(
            if width - tail.len() >= 0 {
                width - tail.len()
            } else {
                0
            },
        ) + tail
    }
}

/// Relies on console::truncate_str, built without the unicode-width and
/// ansi-parsing features: it counts plain characters, returns a string of
/// at most `width` of them unchanged, and otherwise keeps the first
/// `width - tail-length` characters (cut at a character boundary, never
/// below zero) and appends `tail`.
#[verifier::external_body]
fn truncate_with_tail(s: &str, width: usize, tail: &str) -> (r: String)
    ensures
        r@ == truncated(s@, width as int, tail@),
{
    console::truncate_str(s, width, tail).into_owned()
}

/// The body that is delivered: the normalized text, truncated to the
/// delivery sink's cap of 4096 characters with a trailing ellipsis.
pub open spec fn body_text(raw: Seq<char>) -> Seq<char> {
    truncated(normalized(raw), 4096, "..."@)
}

/// The delivered body never exceeds the sink's cap, whatever the raw body.
pub proof fn lemma_body_cap(raw: Seq<char>)
    ensures
        body_text(raw).len() <= 4096,
{
    reveal_strlit("...");
}

/// The truncation boundary: a normalized body within the cap is delivered
/// untouched, and a longer one is cut to exactly the cap, ellipsis
/// included.
pub proof fn lemma_body_truncation_boundary(raw: Seq<char>)
    ensures
        normalized(raw).len() <= 4096 ==> body_text(raw) == normalized(raw),
        normalized(raw).len() > 4096 ==> body_text(raw) == normalized(raw).take(4093) + "..."@,
        normalized(raw).len() > 4096 ==> body_text(raw).len() == 4096,
{
    reveal_strlit("...");
}

/// `"{displayName} ({prefixedAlias})"`, prefixed `@` for a user feed and
/// `!` for a community feed.
pub open spec fn title_text(kind: FeedKind, name: Seq<char>, alias: Seq<char>) -> Seq<char> {
    name + " ("@ + (if kind is User {
        "@"@
    } else {
        "!"@
    }) + alias + ")"@
}

/// The canonical link of a conversation.
pub open spec fn link_text(id: Seq<char>) -> Seq<char> {
    "https://hey.cafe/conversation/"@ + id
}

/// A tag badge rendered as `"{emoji} {name}"`.
pub open spec fn tag_text(emoji: Seq<char>, name: Seq<char>) -> Seq<char> {
    emoji + " "@ + name
}

/// The feed subject's display name: the account for a user feed, the
/// community for a community feed.
pub open spec fn display_name(c: CandidatePost, kind: FeedKind) -> Seq<char> {
    if kind is User {
        c.account_name@
    } else {
        c.cafe->0.name@
    }
}

/// The feed subject's alias, chosen like `display_name`.
pub open spec fn display_alias(c: CandidatePost, kind: FeedKind) -> Seq<char> {
    if kind is User {
        c.account_alias@
    } else {
        c.cafe->0.alias@
    }
}

/// The URL of the first image-kind attachment, if any; later attachments
/// are ignored.
pub open spec fn first_image(atts: Seq<Attachment>) -> Option<Seq<char>>
    decreases atts.len(),
{
    if atts.len() == 0 {
        None
    } else if atts[0].kind@ == "image"@ {
        Some(atts[0].file@)
    } else {
        first_image(atts.skip(1))
    }
}

/// Finds the URL of the first image-kind attachment, scanning in order.
#[verifier::loop_isolation(false)]
fn find_first_image(atts: &Vec<Attachment>) -> (r: Option<String>)
    ensures
        first_image(atts@) matches Some(u) ==> (r matches Some(v) && v@ == u),
        first_image(atts@) is None ==> r is None,
{
    let image_kind = String::from_str("image");
    proof {
        assert(atts@.skip(0) =~= atts@);
    }
    let mut i: usize = 0;
    while i < atts.len()
        invariant
            i <= atts@.len(),
            first_image(atts@) == first_image(atts@.skip(i as int)),
        decreases atts@.len() - i,
    {
        let ghost rest = atts@.skip(i as int);
        proof {
            assert(rest[0] == atts@[i as int]);
        }
        if atts[i].kind == image_kind {
            return Some(atts[i].file.clone());
        }
        proof {
            assert(rest.skip(1) =~= atts@.skip(i as int + 1));
        }
        i += 1;
    }
    proof {
        assert(atts@.skip(atts@.len() as int) =~= Seq::<Attachment>::empty());
    }
    None
}

/// A channel-ready notification. Derived and stateless: never persisted.
#[derive(Clone, Debug)]
pub struct NotificationPayload {
    pub title: String,
    pub body: String,
    pub link: String,
    pub thumbnail: String,
    pub tag_label: Option<String>,
    pub has_attachments: bool,
    pub image: Option<String>,
    pub mention: Option<u64>,
    pub author: Option<String>,
}

/// What the formatter owes: the prefixed title, the normalized and capped
/// body, the conversation link, the tag badge only when the subscription
/// filters by tag and the post carries one, the first image attachment's
/// link, the opaque mention handle, and — for a community feed only — the
/// posting account as a separate author line.
pub open spec fn payload_matches(p: NotificationPayload, sub: Subscription, c: CandidatePost) -> bool {
    &&& p.title@ == title_text(sub.kind, display_name(c, sub.kind), display_alias(c, sub.kind))
    &&& p.body@ == body_text(c.body@)
    &&& p.body@.len() <= 4096
    &&& p.link@ == link_text(c.id@)
    &&& p.thumbnail@ == c.account_avatar@
    &&& ((sub.tag_filter is Some && c.tag is Some) ==> (p.tag_label matches Some(l) && l@
        == tag_text(c.tag->0.emoji@, c.tag->0.name@)))
    &&& (!(sub.tag_filter is Some && c.tag is Some) ==> p.tag_label is None)
    &&& p.has_attachments == (c.attachments@.len() > 0)
    &&& (first_image(c.attachments@) matches Some(u) ==> (p.image matches Some(v) && v@ == u))
    &&& (first_image(c.attachments@) is None ==> p.image is None)
    &&& p.mention == sub.mention_role
    &&& (sub.kind is Cafe ==> (p.author matches Some(a) && a@ == c.account_name@))
    &&& (sub.kind is User ==> p.author is None)
}

/// Builds the payload for `c` under subscription `sub`, exactly as
/// `payload_matches` describes.
#[verifier::loop_isolation(false)]
pub fn format_notification(sub: &Subscription, c: &CandidatePost) -> (p: NotificationPayload)
    requires
        candidate_fits_kind(*c, sub.kind),
    ensures
        payload_matches(p, *sub, *c),
{
    let mut title: String = match sub.kind {
        FeedKind::User => c.account_name.clone(),
        FeedKind::Cafe => {
            match &c.cafe {
                Some(cc) => cc.name.clone(),
                None => { unreached() },
            }
        },
    };
    title.append(" (");
    match sub.kind {
        FeedKind::User => title.append("@"),
        FeedKind::Cafe => title.append("!"),
    }
    match sub.kind {
        FeedKind::User => title.append(c.account_alias.as_str()),
        FeedKind::Cafe => {
            match &c.cafe {
                Some(cc) => title.append(cc.alias.as_str()),
                None => { unreached() },
            }
        },
    }
    title.append(")");
    proof {
        assert(title@ =~= title_text(sub.kind, display_name(*c, sub.kind), display_alias(
            *c,
            sub.kind,
        )));
    }
    let normalized_body = normalize(c.body.clone());
    let body = truncate_with_tail(normalized_body.as_str(), 4096, "...");
    proof {
        lemma_body_cap(c.body@);
    }
    let mut link = String::from_str("https://hey.cafe/conversation/");
    link.append(c.id.as_str());
    let tag_label: Option<String> = if sub.tag_filter.is_some() {
        match &c.tag {
            Some(t) => {
                let mut l = t.emoji.clone();
                l.append(" ");
                l.append(t.name.as_str());
                proof {
                    assert(l@ =~= tag_text(c.tag->0.emoji@, c.tag->0.name@));
                }
                Some(l)
            },
            None => None,
        }
    } else {
        None
    };
    let has_attachments = c.attachments.len() > 0;
    let image = find_first_image(&c.attachments);
    let author: Option<String> = match sub.kind {
        FeedKind::User => None,
        FeedKind::Cafe => Some(c.account_name.clone()),
    };
    NotificationPayload {
        title,
        body,
        link,
        thumbnail: c.account_avatar.clone(),
        tag_label,
        has_attachments,
        image,
        mention: sub.mention_role,
        author,
    }
}

} // verus!
