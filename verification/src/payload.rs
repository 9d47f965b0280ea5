//! The member request as it is handed to the gateway: an envelope, its body
//! and the selection of members by identifier.

use vstd::prelude::*;
use vstd::std_specs::convert::FromSpecImpl;
use crate::id::{GuildId, UserId};
use crate::opcode::OpCode;

verus! {

/// One identifier or a list of identifiers in a request.
///
/// The two shapes stay apart: a list of one identifier is not the same
/// selection as that one identifier alone.
#[derive(Clone, Debug, PartialEq, Eq, Hash)]
pub enum RequestGuildMemberId<T> {
    /// Single identifier.
    One(T),
    /// List of identifiers, in the order in which they were given.
    Multiple(Vec<T>),
}

/// Mathematical model of a [`RequestGuildMemberId`].
pub enum RequestGuildMemberIdView<T> {
    /// Single identifier.
    One(T),
    /// List of identifiers, in the order in which they were given.
    Multiple(Seq<T>),
}

impl<T> View for RequestGuildMemberId<T> {
    type V = RequestGuildMemberIdView<T>;

    open spec fn view(&self) -> RequestGuildMemberIdView<T> {
        match self {
            RequestGuildMemberId::One(id) => RequestGuildMemberIdView::One(*id),
            RequestGuildMemberId::Multiple(ids) => RequestGuildMemberIdView::Multiple(ids@),
        }
    }
}

impl<T> From<T> for RequestGuildMemberId<T> {
    fn from(id: T) -> (selection: Self) {
        RequestGuildMemberId::One(id)
    }
}

impl<T> FromSpecImpl<T> for RequestGuildMemberId<T> {
    open spec fn obeys_from_spec() -> bool {
        true
    }

    open spec fn from_spec(id: T) -> Self {
        RequestGuildMemberId::One(id)
    }
}

impl<T> From<Vec<T>> for RequestGuildMemberId<T> {
    fn from(ids: Vec<T>) -> (selection: Self) {
        RequestGuildMemberId::Multiple(ids)
    }
}

impl<T> FromSpecImpl<Vec<T>> for RequestGuildMemberId<T> {
    open spec fn obeys_from_spec() -> bool {
        true
    }

    open spec fn from_spec(ids: Vec<T>) -> Self {
        RequestGuildMemberId::Multiple(ids)
    }
}

/// Body of a member request.
#[derive(Clone, Debug, PartialEq, Eq, Hash)]
pub struct RequestGuildMembersInfo {
    /// Guild whose members are asked for.
    pub guild_id: GuildId,
    /// Maximum number of members to return.
    pub limit: Option<u64>,
    /// Token by which the caller recognises the answers to this request.
    pub nonce: Option<String>,
    /// Whether the members' presences are asked for as well.
    pub presences: Option<bool>,
    /// Prefix that the names of the returned members start with.
    pub query: Option<String>,
    /// Members asked for by identifier.
    pub user_ids: Option<RequestGuildMemberId<UserId>>,
}

/// Mathematical model of a [`RequestGuildMembersInfo`]: the same parts,
/// with each string as the sequence of its characters and the selection by
/// identifier as its own model.
pub struct RequestGuildMembersInfoView {
    /// Guild whose members are asked for.
    pub guild_id: GuildId,
    /// Maximum number of members to return.
    pub limit: Option<u64>,
    /// Token by which the caller recognises the answers to this request.
    pub nonce: Option<Seq<char>>,
    /// Whether the members' presences are asked for as well.
    pub presences: Option<bool>,
    /// Prefix that the names of the returned members start with.
    pub query: Option<Seq<char>>,
    /// Members asked for by identifier.
    pub user_ids: Option<RequestGuildMemberIdView<UserId>>,
}

impl RequestGuildMembersInfoView {
    /// Exactly one way of selecting members is in use, by name or by
    /// identifier, and a limit is present exactly when members are selected
    /// by name.
    pub open spec fn well_formed(self) -> bool {
        &&& (self.query is Some) != (self.user_ids is Some)
        &&& (self.limit is Some) == (self.query is Some)
    }
}

impl View for RequestGuildMembersInfo {
    type V = RequestGuildMembersInfoView;

    open spec fn view(&self) -> RequestGuildMembersInfoView {
        RequestGuildMembersInfoView {
            guild_id: self.guild_id,
            limit: self.limit,
            nonce: match self.nonce {
                Some(nonce) => Some(nonce@),
                None => None,
            },
            presences: self.presences,
            query: match self.query {
                Some(query) => Some(query@),
                None => None,
            },
            user_ids: match self.user_ids {
                Some(selection) => Some(selection@),
                None => None,
            },
        }
    }
}

/// Envelope of a member request.
#[derive(Clone, Debug, PartialEq, Eq, Hash)]
pub struct RequestGuildMembers {
    /// Body of the request.
    pub d: RequestGuildMembersInfo,
    /// Kind of the message.
    pub op: OpCode,
}

/// Mathematical model of a [`RequestGuildMembers`].
pub struct RequestGuildMembersView {
    /// Body of the request.
    pub d: RequestGuildMembersInfoView,
    /// Kind of the message.
    pub op: OpCode,
}

impl RequestGuildMembersView {
    /// The envelope is tagged as a member request and its body is well formed.
    pub open spec fn well_formed(self) -> bool {
        self.op == OpCode::RequestGuildMembers && self.d.well_formed()
    }
}

impl View for RequestGuildMembers {
    type V = RequestGuildMembersView;

    open spec fn view(&self) -> RequestGuildMembersView {
        RequestGuildMembersView { d: self.d@, op: self.op }
    }
}

} // verus!
