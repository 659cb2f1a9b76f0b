//! Classification of a fetched upstream document. The unverified shell
//! decodes the wire response into `ApiDocument`, a schema of plain optional
//! fields; this module decides, exactly, whether that document yields a
//! candidate post, nothing to deliver, or a classified failure.

use vstd::prelude::*;
use crate::model::{Attachment, CafeContext, CandidatePost, FeedKind, TagBadge};
use crate::numbers::{all_digits, dec_value, parse_timestamp};

verus! {

/// How a fetch fails. `NotFound` is not a hard error: the sweep treats it
/// as "nothing to deliver this round".
#[derive(Clone, Copy, PartialEq, Eq, Structural, Debug)]
pub enum FetchError {
    Timeout,
    Transport,
    Malformed,
    NotFound,
    UpstreamError,
}

/// The community field of a fetched conversation: absent, the boolean
/// placeholder upstream uses for a post outside any community, or the
/// community's record.
#[derive(Clone, Debug)]
pub enum CafeField {
    Missing,
    Flag,
    Info(RawCafe),
}

#[derive(Clone, Debug)]
pub struct RawCafe {
    pub name: Option<String>,
    pub alias: Option<String>,
}

#[derive(Clone, Debug)]
pub struct RawAccount {
    pub name: Option<String>,
    pub alias: Option<String>,
    pub avatar: Option<String>,
}

#[derive(Clone, Debug)]
pub struct RawTag {
    pub name: Option<String>,
    pub emoji: Option<String>,
}

#[derive(Clone, Debug)]
pub struct RawAttachment {
    pub kind: Option<String>,
    pub file: Option<String>,
}

/// The single latest conversation of a feed, as decoded from the wire:
/// every field is optional here, and `classify_response` decides which
/// absences are tolerable and which make the document malformed.
#[derive(Clone, Debug)]
pub struct RawConversation {
    pub id: Option<String>,
    pub date_created: Option<String>,
    pub contents: Option<String>,
    pub account: Option<RawAccount>,
    pub cafe: CafeField,
    pub tag: Option<RawTag>,
    pub attachments: Option<Vec<RawAttachment>>,
}

/// A decoded upstream reply: the top-level error indicator, and the latest
/// conversation if the reply carried one.
#[derive(Clone, Debug)]
pub struct ApiDocument {
    pub api_error: Option<String>,
    pub conversation: Option<RawConversation>,
}

/// Upstream reported an explicit error in the reply.
pub open spec fn spec_upstream_failed(doc: ApiDocument) -> bool {
    doc.api_error is Some
}

/// Nothing to deliver: no conversation came back, or — for a user feed —
/// the reply lacks the expected author-context placeholder, which mirrors
/// upstream's optional-field behavior and is not treated as malformed.
pub open spec fn spec_nothing_found(doc: ApiDocument, kind: FeedKind) -> bool {
    &&& !spec_upstream_failed(doc)
    &&& (doc.conversation is None || (kind is User && !(doc.conversation->0.cafe is Flag)))
}

/// Every field the relay needs is present and well formed: the id, a digit
/// timestamp that fits, the body, the posting account, the community record
/// for a community feed, and complete tag and attachment entries.
pub open spec fn spec_conv_complete(conv: RawConversation, kind: FeedKind) -> bool {
    &&& conv.id is Some
    &&& conv.date_created is Some
    &&& conv.date_created->0@.len() > 0
    &&& all_digits(conv.date_created->0@)
    &&& dec_value(conv.date_created->0@) <= i64::MAX
    &&& conv.contents is Some
    &&& conv.account matches Some(a) && a.name is Some && a.alias is Some && a.avatar is Some
    &&& (kind is Cafe ==> (conv.cafe matches CafeField::Info(rc) && rc.name is Some
        && rc.alias is Some))
    &&& (conv.tag matches Some(rt) ==> rt.name is Some && rt.emoji is Some)
    &&& (conv.attachments matches Some(ratts) ==> forall|i: int|
        0 <= i < ratts@.len() ==> (#[trigger] ratts@[i]).kind is Some && ratts@[i].file is Some)
}

/// The document is present, wanted, but not of the expected shape.
pub open spec fn spec_malformed(doc: ApiDocument, kind: FeedKind) -> bool {
    &&& !spec_upstream_failed(doc)
    &&& !spec_nothing_found(doc, kind)
    &&& !spec_conv_complete(doc.conversation->0, kind)
}

/// The document yields a candidate post.
pub open spec fn spec_fetch_ok(doc: ApiDocument, kind: FeedKind) -> bool {
    &&& !spec_upstream_failed(doc)
    &&& !spec_nothing_found(doc, kind)
    &&& spec_conv_complete(doc.conversation->0, kind)
}

pub open spec fn is_err_with(r: Result<CandidatePost, FetchError>, e: FetchError) -> bool {
    r matches Err(x) && x == e
}

/// The candidate carries exactly the conversation's fields.
pub open spec fn spec_candidate_matches(conv: RawConversation, c: CandidatePost) -> bool {
    &&& c.id@ == conv.id->0@
    &&& c.timestamp == dec_value(conv.date_created->0@)
    &&& c.account_name@ == conv.account->0.name->0@
    &&& c.account_alias@ == conv.account->0.alias->0@
    &&& c.account_avatar@ == conv.account->0.avatar->0@
    &&& c.body@ == conv.contents->0@
    &&& (match conv.cafe {
        CafeField::Info(rc) => c.cafe matches Some(cc) && cc.name@ == rc.name->0@ && cc.alias@
            == rc.alias->0@,
        _ => c.cafe is None,
    })
    &&& (match conv.tag {
        Some(rt) => c.tag matches Some(t) && t.name@ == rt.name->0@ && t.emoji@ == rt.emoji->0@,
        None => c.tag is None,
    })
    &&& (match conv.attachments {
        Some(ratts) => c.attachments@.len() == ratts@.len() && (forall|i: int|
            0 <= i < ratts@.len() ==> (#[trigger] c.attachments@[i]).kind@ == ratts@[i].kind->0@
                && c.attachments@[i].file@ == ratts@[i].file->0@),
        None => c.attachments@.len() == 0,
    })
}

/// True when the decoded reply carries an explicit upstream error.
pub fn has_error(doc: &ApiDocument) -> (b: bool)
    ensures
        b == spec_upstream_failed(*doc),
{
    doc.api_error.is_some()
}

/// Classifies a decoded reply for a feed of the given kind: an explicit
/// upstream error wins, then the two "nothing to deliver" cases, then any
/// missing or ill-formed required field, and what remains is a candidate
/// whose fields are exactly the conversation's.
#[verifier::loop_isolation(false)]
pub fn classify_response(doc: &ApiDocument, kind: FeedKind) -> (r: Result<
    CandidatePost,
    FetchError,
>)
    ensures
        is_err_with(r, FetchError::UpstreamError) <==> spec_upstream_failed(*doc),
        is_err_with(r, FetchError::NotFound) <==> spec_nothing_found(*doc, kind),
        is_err_with(r, FetchError::Malformed) <==> spec_malformed(*doc, kind),
        r is Ok <==> spec_fetch_ok(*doc, kind),
        r matches Ok(c) ==> spec_candidate_matches(doc.conversation->0, c),
        r matches Ok(c) ==> crate::model::candidate_fits_kind(c, kind),
{
    if doc.api_error.is_some() {
        return Err(FetchError::UpstreamError);
    }
    let conv = match &doc.conversation {
        Some(conv) => conv,
        None => { return Err(FetchError::NotFound) },
    };
    if kind == FeedKind::User {
        match &conv.cafe {
            CafeField::Flag => {},
            _ => { return Err(FetchError::NotFound) },
        }
    }
    let id = match &conv.id {
        Some(id) => id,
        None => { return Err(FetchError::Malformed) },
    };
    let date_created = match &conv.date_created {
        Some(d) => d,
        None => { return Err(FetchError::Malformed) },
    };
    let timestamp = match parse_timestamp(date_created.as_str()) {
        Some(t) => t,
        None => { return Err(FetchError::Malformed) },
    };
    let body = match &conv.contents {
        Some(b) => b,
        None => { return Err(FetchError::Malformed) },
    };
    let account = match &conv.account {
        Some(a) => a,
        None => { return Err(FetchError::Malformed) },
    };
    let account_name = match &account.name {
        Some(v) => v,
        None => { return Err(FetchError::Malformed) },
    };
    let account_alias = match &account.alias {
        Some(v) => v,
        None => { return Err(FetchError::Malformed) },
    };
    let account_avatar = match &account.avatar {
        Some(v) => v,
        None => { return Err(FetchError::Malformed) },
    };
    let cafe: Option<CafeContext> = match &conv.cafe {
        CafeField::Info(rc) => {
            let name = match &rc.name {
                Some(v) => v,
                None => { return Err(FetchError::Malformed) },
            };
            let alias = match &rc.alias {
                Some(v) => v,
                None => { return Err(FetchError::Malformed) },
            };
            Some(CafeContext { name: name.clone(), alias: alias.clone() })
        },
        _ => {
            if kind == FeedKind::Cafe {
                return Err(FetchError::Malformed);
            }
            None
        },
    };
    let tag: Option<TagBadge> = match &conv.tag {
        Some(rt) => {
            let name = match &rt.name {
                Some(v) => v,
                None => { return Err(FetchError::Malformed) },
            };
            let emoji = match &rt.emoji {
                Some(v) => v,
                None => { return Err(FetchError::Malformed) },
            };
            Some(TagBadge { name: name.clone(), emoji: emoji.clone() })
        },
        None => None,
    };
    let mut attachments: Vec<Attachment> = Vec::new();
    match &conv.attachments {
        Some(ratts) => {
            let mut i: usize = 0;
            while i < ratts.len()
                invariant
                    i <= ratts@.len(),
                    attachments@.len() == i,
                    forall|k: int|
                        0 <= k < i ==> (#[trigger] ratts@[k]).kind is Some && ratts@[k].file
                            is Some,
                    forall|k: int|
                        0 <= k < i ==> (#[trigger] attachments@[k]).kind@ == ratts@[k].kind->0@
                            && attachments@[k].file@ == ratts@[k].file->0@,
                decreases ratts@.len() - i,
            {
                let ra = &ratts[i];
                let akind = match &ra.kind {
                    Some(v) => v,
                    None => { return Err(FetchError::Malformed) },
                };
                let afile = match &ra.file {
                    Some(v) => v,
                    None => { return Err(FetchError::Malformed) },
                };
                attachments.push(Attachment { kind: akind.clone(), file: afile.clone() });
                i += 1;
            }
        },
        None => {},
    }
    Ok(
        CandidatePost {
            id: id.clone(),
            timestamp,
            account_name: account_name.clone(),
            account_alias: account_alias.clone(),
            account_avatar: account_avatar.clone(),
            cafe,
            body: body.clone(),
            tag,
            attachments,
        },
    )
}

} // verus!
