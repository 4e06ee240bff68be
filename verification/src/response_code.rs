//! Classification of three-digit NNTP response codes into semantic kinds.
//!
//! A code is classified by a fixed table: a closed set of codes relevant to
//! this client maps to [`Kind`]; every other code stays an opaque number.
//! A fixed subset of the known kinds introduces a multi-line data block.

use vstd::prelude::*;

verus! {

/// The semantic outcome kinds this client distinguishes.
#[derive(Clone, Copy, Debug, PartialEq, Eq, Structural)]
pub enum Kind {
    /// 100: help text follows
    Help,
    /// 101: capability list follows
    Capabilities,
    /// 111: server date and time
    DateTime,
    /// 200: service available, posting allowed
    ServiceAvailable,
    /// 201: service available, posting prohibited
    ServiceAvailableNoPosting,
    /// 205: connection closing
    ConnectionClosing,
    /// 211: group selected (for a group listing, article numbers follow)
    GroupSelected,
    /// 215: information list follows
    ListFollows,
    /// 220: article follows
    ArticleFollows,
    /// 221: headers follow
    HeadFollows,
    /// 222: body follows
    BodyFollows,
    /// 223: article exists
    ArticleExists,
    /// 224: overview information follows
    OverviewFollows,
    /// 230: list of new article ids follows
    NewArticlesFollow,
    /// 231: list of new newsgroups follows
    NewGroupsFollow,
    /// 281: authentication accepted
    AuthenticationAccepted,
    /// 381: more authentication information required (password requested)
    PasswordRequired,
    /// 400: service temporarily unavailable
    ServiceTemporarilyUnavailable,
    /// 411: no such newsgroup
    NoSuchNewsgroup,
    /// 412: no newsgroup selected
    NoNewsgroupSelected,
    /// 420: no current article selected
    NoArticleSelected,
    /// 480: authentication required
    AuthenticationRequired,
    /// 481: authentication rejected
    AuthenticationRejected,
    /// 502: service permanently unavailable
    ServicePermanentlyUnavailable,
}

/// A parsed response code: either a known kind or an opaque numeric code.
#[derive(Clone, Copy, Debug, PartialEq, Eq, Structural)]
pub enum ResponseCode {
    Known(Kind),
    Unknown(u16),
}

/// The numeric code of each known kind.
pub open spec fn spec_code_of(kind: Kind) -> u16 {
    match kind {
        Kind::Help => 100,
        Kind::Capabilities => 101,
        Kind::DateTime => 111,
        Kind::ServiceAvailable => 200,
        Kind::ServiceAvailableNoPosting => 201,
        Kind::ConnectionClosing => 205,
        Kind::GroupSelected => 211,
        Kind::ListFollows => 215,
        Kind::ArticleFollows => 220,
        Kind::HeadFollows => 221,
        Kind::BodyFollows => 222,
        Kind::ArticleExists => 223,
        Kind::OverviewFollows => 224,
        Kind::NewArticlesFollow => 230,
        Kind::NewGroupsFollow => 231,
        Kind::AuthenticationAccepted => 281,
        Kind::PasswordRequired => 381,
        Kind::ServiceTemporarilyUnavailable => 400,
        Kind::NoSuchNewsgroup => 411,
        Kind::NoNewsgroupSelected => 412,
        Kind::NoArticleSelected => 420,
        Kind::AuthenticationRequired => 480,
        Kind::AuthenticationRejected => 481,
        Kind::ServicePermanentlyUnavailable => 502,
    }
}

/// The fixed classification table: every known code maps to its kind,
/// everything else stays numeric.
pub open spec fn spec_classify(code: u16) -> ResponseCode {
    if code == 100 {
        ResponseCode::Known(Kind::Help)
    } else if code == 101 {
        ResponseCode::Known(Kind::Capabilities)
    } else if code == 111 {
        ResponseCode::Known(Kind::DateTime)
    } else if code == 200 {
        ResponseCode::Known(Kind::ServiceAvailable)
    } else if code == 201 {
        ResponseCode::Known(Kind::ServiceAvailableNoPosting)
    } else if code == 205 {
        ResponseCode::Known(Kind::ConnectionClosing)
    } else if code == 211 {
        ResponseCode::Known(Kind::GroupSelected)
    } else if code == 215 {
        ResponseCode::Known(Kind::ListFollows)
    } else if code == 220 {
        ResponseCode::Known(Kind::ArticleFollows)
    } else if code == 221 {
        ResponseCode::Known(Kind::HeadFollows)
    } else if code == 222 {
        ResponseCode::Known(Kind::BodyFollows)
    } else if code == 223 {
        ResponseCode::Known(Kind::ArticleExists)
    } else if code == 224 {
        ResponseCode::Known(Kind::OverviewFollows)
    } else if code == 230 {
        ResponseCode::Known(Kind::NewArticlesFollow)
    } else if code == 231 {
        ResponseCode::Known(Kind::NewGroupsFollow)
    } else if code == 281 {
        ResponseCode::Known(Kind::AuthenticationAccepted)
    } else if code == 381 {
        ResponseCode::Known(Kind::PasswordRequired)
    } else if code == 400 {
        ResponseCode::Known(Kind::ServiceTemporarilyUnavailable)
    } else if code == 411 {
        ResponseCode::Known(Kind::NoSuchNewsgroup)
    } else if code == 412 {
        ResponseCode::Known(Kind::NoNewsgroupSelected)
    } else if code == 420 {
        ResponseCode::Known(Kind::NoArticleSelected)
    } else if code == 480 {
        ResponseCode::Known(Kind::AuthenticationRequired)
    } else if code == 481 {
        ResponseCode::Known(Kind::AuthenticationRejected)
    } else if code == 502 {
        ResponseCode::Known(Kind::ServicePermanentlyUnavailable)
    } else {
        ResponseCode::Unknown(code)
    }
}

/// The known kinds that introduce a multi-line data block: the listing and
/// retrieval successes, the capability listing, and group selection.
pub open spec fn spec_kind_is_multiline(kind: Kind) -> bool {
    match kind {
        Kind::Help => true,
        Kind::Capabilities => true,
        Kind::GroupSelected => true,
        Kind::ListFollows => true,
        Kind::ArticleFollows => true,
        Kind::HeadFollows => true,
        Kind::BodyFollows => true,
        Kind::OverviewFollows => true,
        Kind::NewArticlesFollow => true,
        Kind::NewGroupsFollow => true,
        _ => false,
    }
}

/// Whether a classified code announces a multi-line data block. Unknown
/// codes never do: the parser treats them as single-line replies.
pub open spec fn spec_is_multiline(code: ResponseCode) -> bool {
    match code {
        ResponseCode::Known(kind) => spec_kind_is_multiline(kind),
        ResponseCode::Unknown(_) => false,
    }
}

impl Kind {
    /// The numeric code of this kind.
    pub fn code(self) -> (r: u16)
        ensures
            r == spec_code_of(self),
    {
        match self {
            Kind::Help => 100,
            Kind::Capabilities => 101,
            Kind::DateTime => 111,
            Kind::ServiceAvailable => 200,
            Kind::ServiceAvailableNoPosting => 201,
            Kind::ConnectionClosing => 205,
            Kind::GroupSelected => 211,
            Kind::ListFollows => 215,
            Kind::ArticleFollows => 220,
            Kind::HeadFollows => 221,
            Kind::BodyFollows => 222,
            Kind::ArticleExists => 223,
            Kind::OverviewFollows => 224,
            Kind::NewArticlesFollow => 230,
            Kind::NewGroupsFollow => 231,
            Kind::AuthenticationAccepted => 281,
            Kind::PasswordRequired => 381,
            Kind::ServiceTemporarilyUnavailable => 400,
            Kind::NoSuchNewsgroup => 411,
            Kind::NoNewsgroupSelected => 412,
            Kind::NoArticleSelected => 420,
            Kind::AuthenticationRequired => 480,
            Kind::AuthenticationRejected => 481,
            Kind::ServicePermanentlyUnavailable => 502,
        }
    }
}

impl ResponseCode {
    /// Classify a numeric code by the fixed table.
    pub fn from_code(code: u16) -> (r: ResponseCode)
        ensures
            r == spec_classify(code),
    {
        if code == 100 {
            ResponseCode::Known(Kind::Help)
        } else if code == 101 {
            ResponseCode::Known(Kind::Capabilities)
        } else if code == 111 {
            ResponseCode::Known(Kind::DateTime)
        } else if code == 200 {
            ResponseCode::Known(Kind::ServiceAvailable)
        } else if code == 201 {
            ResponseCode::Known(Kind::ServiceAvailableNoPosting)
        } else if code == 205 {
            ResponseCode::Known(Kind::ConnectionClosing)
        } else if code == 211 {
            ResponseCode::Known(Kind::GroupSelected)
        } else if code == 215 {
            ResponseCode::Known(Kind::ListFollows)
        } else if code == 220 {
            ResponseCode::Known(Kind::ArticleFollows)
        } else if code == 221 {
            ResponseCode::Known(Kind::HeadFollows)
        } else if code == 222 {
            ResponseCode::Known(Kind::BodyFollows)
        } else if code == 223 {
            ResponseCode::Known(Kind::ArticleExists)
        } else if code == 224 {
            ResponseCode::Known(Kind::OverviewFollows)
        } else if code == 230 {
            ResponseCode::Known(Kind::NewArticlesFollow)
        } else if code == 231 {
            ResponseCode::Known(Kind::NewGroupsFollow)
        } else if code == 281 {
            ResponseCode::Known(Kind::AuthenticationAccepted)
        } else if code == 381 {
            ResponseCode::Known(Kind::PasswordRequired)
        } else if code == 400 {
            ResponseCode::Known(Kind::ServiceTemporarilyUnavailable)
        } else if code == 411 {
            ResponseCode::Known(Kind::NoSuchNewsgroup)
        } else if code == 412 {
            ResponseCode::Known(Kind::NoNewsgroupSelected)
        } else if code == 420 {
            ResponseCode::Known(Kind::NoArticleSelected)
        } else if code == 480 {
            ResponseCode::Known(Kind::AuthenticationRequired)
        } else if code == 481 {
            ResponseCode::Known(Kind::AuthenticationRejected)
        } else if code == 502 {
            ResponseCode::Known(Kind::ServicePermanentlyUnavailable)
        } else {
            ResponseCode::Unknown(code)
        }
    }

    /// Whether this code announces a multi-line data block.
    pub fn is_multiline(self) -> (r: bool)
        ensures
            r == spec_is_multiline(self),
    {
        match self {
            ResponseCode::Known(kind) => match kind {
                Kind::Help => true,
                Kind::Capabilities => true,
                Kind::GroupSelected => true,
                Kind::ListFollows => true,
                Kind::ArticleFollows => true,
                Kind::HeadFollows => true,
                Kind::BodyFollows => true,
                Kind::OverviewFollows => true,
                Kind::NewArticlesFollow => true,
                Kind::NewGroupsFollow => true,
                _ => false,
            },
            ResponseCode::Unknown(_) => false,
        }
    }
}

} // verus!
