//! Step-by-step construction of a member request.

use vstd::prelude::*;
use vstd::std_specs::convert::IntoSpec;
use crate::error::{UserIdsError, UserIdsErrorView, MAX_USER_IDS};
use crate::id::{GuildId, UserId};
use crate::opcode::OpCode;
use crate::payload::{
    RequestGuildMemberId, RequestGuildMemberIdView, RequestGuildMembers, RequestGuildMembersInfo,
    RequestGuildMembersInfoView, RequestGuildMembersView,
};

verus! {

/// Collects the optional parts of a member request, then makes the request
/// in one of three ways: by name, by one identifier or by a list of
/// identifiers.
pub struct RequestGuildMembersBuilder {
    guild_id: GuildId,
    nonce: Option<String>,
    presences: Option<bool>,
}

/// Mathematical model of a [`RequestGuildMembersBuilder`]: what has been
/// collected so far.
pub struct RequestGuildMembersBuilderView {
    /// Guild that the request will be about.
    pub guild_id: GuildId,
    /// Nonce set last, if one was set.
    pub nonce: Option<Seq<char>>,
    /// Presence flag set last, if one was set.
    pub presences: Option<bool>,
}

impl RequestGuildMembersBuilderView {
    /// The builder for `guild_id` with nothing set.
    pub open spec fn new(guild_id: GuildId) -> Self {
        RequestGuildMembersBuilderView { guild_id, nonce: None, presences: None }
    }

    /// The builder with its nonce replaced by `nonce`.
    pub open spec fn nonce(self, nonce: Seq<char>) -> Self {
        RequestGuildMembersBuilderView { nonce: Some(nonce), ..self }
    }

    /// The builder with its presence flag replaced by `presences`.
    pub open spec fn presences(self, presences: bool) -> Self {
        RequestGuildMembersBuilderView { presences: Some(presences), ..self }
    }

    /// The request for the members whose names start with `query`, at most
    /// `limit` of them; no limit stands for zero.
    pub open spec fn query(self, query: Seq<char>, limit: Option<u64>) -> RequestGuildMembersView {
        RequestGuildMembersView {
            d: RequestGuildMembersInfoView {
                guild_id: self.guild_id,
                limit: Some(
                    match limit {
                        Some(limit) => limit,
                        None => 0,
                    },
                ),
                nonce: self.nonce,
                presences: self.presences,
                query: Some(query),
                user_ids: None,
            },
            op: OpCode::RequestGuildMembers,
        }
    }

    /// The request for the one member `user_id`.
    pub open spec fn user_id(self, user_id: UserId) -> RequestGuildMembersView {
        RequestGuildMembersView {
            d: RequestGuildMembersInfoView {
                guild_id: self.guild_id,
                limit: None,
                nonce: self.nonce,
                presences: self.presences,
                query: None,
                user_ids: Some(RequestGuildMemberIdView::One(user_id)),
            },
            op: OpCode::RequestGuildMembers,
        }
    }

    /// The outcome of asking for the members `user_ids`: the request that
    /// names them all in the order given, or a refusal that holds them all
    /// in the order given where there are more than [`MAX_USER_IDS`].
    pub open spec fn user_ids(self, user_ids: Seq<UserId>) -> Result<
        RequestGuildMembersView,
        UserIdsErrorView,
    > {
        if user_ids.len() > MAX_USER_IDS {
            Err(UserIdsErrorView::TooMany { ids: user_ids })
        } else {
            Ok(
                RequestGuildMembersView {
                    d: RequestGuildMembersInfoView {
                        guild_id: self.guild_id,
                        limit: None,
                        nonce: self.nonce,
                        presences: self.presences,
                        query: None,
                        user_ids: Some(RequestGuildMemberIdView::Multiple(user_ids)),
                    },
                    op: OpCode::RequestGuildMembers,
                },
            )
        }
    }
}

impl View for RequestGuildMembersBuilder {
    type V = RequestGuildMembersBuilderView;

    closed spec fn view(&self) -> RequestGuildMembersBuilderView {
        RequestGuildMembersBuilderView {
            guild_id: self.guild_id,
            nonce: match self.nonce {
                Some(nonce) => Some(nonce@),
                None => None,
            },
            presences: self.presences,
        }
    }
}

/// Model of the outcome of making a request from a list of identifiers.
pub open spec fn outcome_view(outcome: Result<RequestGuildMembers, UserIdsError>) -> Result<
    RequestGuildMembersView,
    UserIdsErrorView,
> {
    match outcome {
        Ok(request) => Ok(request@),
        Err(error) => Err(error@),
    }
}

impl RequestGuildMembers {
    /// Creates a builder for a request about the guild `guild_id`, with
    /// neither nonce nor presence flag set.
    pub fn builder(guild_id: GuildId) -> (builder: RequestGuildMembersBuilder)
        ensures
            builder@ == RequestGuildMembersBuilderView::new(guild_id),
    {
        RequestGuildMembersBuilder::new(guild_id)
    }
}

impl RequestGuildMembersBuilder {
    /// Creates a builder for a request about the guild `guild_id`, with
    /// neither nonce nor presence flag set.
    pub fn new(guild_id: GuildId) -> (builder: Self)
        ensures
            builder@ == RequestGuildMembersBuilderView::new(guild_id),
    {
        RequestGuildMembersBuilder { guild_id, nonce: None, presences: None }
    }

    /// Sets the nonce by which the answers to the request are recognised,
    /// in place of one set before. The nonce is the string that `nonce`
    /// converts into.
    pub fn nonce<N: Into<String>>(self, nonce: N) -> (builder: Self)
        ensures
            exists|text: String|
                call_ensures(N::into, (nonce,), text) && builder@ == self@.nonce(text@),
            N::obeys_into_spec() ==> builder@ == self@.nonce(nonce.into_spec()@),
    {
        self._nonce(nonce.into())
    }

    /// Sets the nonce to `nonce`, in place of one set before.
    pub fn _nonce(self, nonce: String) -> (builder: Self)
        ensures
            builder@ == self@.nonce(nonce@),
    {
        RequestGuildMembersBuilder {
            guild_id: self.guild_id,
            nonce: Some(nonce),
            presences: self.presences,
        }
    }

    /// Sets whether the members' presences are asked for as well, in place
    /// of a choice made before.
    pub fn presences(self, presences: bool) -> (builder: Self)
        ensures
            builder@ == self@.presences(presences),
    {
        RequestGuildMembersBuilder {
            guild_id: self.guild_id,
            nonce: self.nonce,
            presences: Some(presences),
        }
    }

    /// Makes the request for the members whose names start with the string
    /// that `query` converts into, the empty string standing for every
    /// name.
    ///
    /// The request always carries a limit: the given one, or zero where
    /// none is given. It carries no identifiers.
    pub fn query<Q: Into<String>>(
        self,
        query: Q,
        limit: Option<u64>,
    ) -> (request: RequestGuildMembers)
        ensures
            exists|text: String|
                call_ensures(Q::into, (query,), text) && request@ == self@.query(text@, limit),
            Q::obeys_into_spec() ==> request@ == self@.query(query.into_spec()@, limit),
    {
        self._query(query.into(), limit)
    }

    /// Makes the request for the members whose names start with `query`,
    /// the empty string standing for every name.
    ///
    /// The request always carries a limit: the given one, or zero where
    /// none is given. It carries no identifiers.
    pub fn _query(self, query: String, limit: Option<u64>) -> (request: RequestGuildMembers)
        ensures
            request@ == self@.query(query@, limit),
            request@.d.query == Some(query@),
            limit is Some ==> request@.d.limit == limit,
            limit is None ==> request@.d.limit == Some(0u64),
            request@.d.user_ids is None,
            request@.well_formed(),
    {
        RequestGuildMembers {
            d: RequestGuildMembersInfo {
                guild_id: self.guild_id,
                limit: Some(
                    match limit {
                        Some(limit) => limit,
                        None => 0,
                    },
                ),
                nonce: self.nonce,
                presences: self.presences,
                query: Some(query),
                user_ids: None,
            },
            op: OpCode::RequestGuildMembers,
        }
    }

    /// Makes the request for the one member `user_id`. It carries neither
    /// query nor limit.
    pub fn user_id(self, user_id: UserId) -> (request: RequestGuildMembers)
        ensures
            request@ == self@.user_id(user_id),
            request@.d.user_ids == Some(RequestGuildMemberIdView::One(user_id)),
            request@.d.query is None,
            request@.d.limit is None,
            request@.well_formed(),
    {
        RequestGuildMembers {
            d: RequestGuildMembersInfo {
                guild_id: self.guild_id,
                limit: None,
                nonce: self.nonce,
                presences: self.presences,
                query: None,
                user_ids: Some(RequestGuildMemberId::One(user_id)),
            },
            op: OpCode::RequestGuildMembers,
        }
    }

    /// Makes the request for the members in the list that `user_ids`
    /// converts into, in the order of the list and with repetitions kept.
    /// It carries neither query nor limit.
    ///
    /// More than [`MAX_USER_IDS`] identifiers are refused with
    /// [`UserIdsError::TooMany`], which hands all of them back.
    pub fn user_ids<I: Into<Vec<UserId>>>(self, user_ids: I) -> (outcome: Result<
        RequestGuildMembers,
        UserIdsError,
    >)
        ensures
            exists|ids: Vec<UserId>|
                call_ensures(I::into, (user_ids,), ids) && outcome_view(outcome)
                    == self@.user_ids(ids@),
            I::obeys_into_spec() ==> outcome_view(outcome)
                == self@.user_ids(user_ids.into_spec()@),
    {
        self._user_ids(user_ids.into())
    }

    /// Makes the request for the members `user_ids`, in the order given and
    /// with repetitions kept. It carries neither query nor limit.
    ///
    /// More than [`MAX_USER_IDS`] identifiers are refused with
    /// [`UserIdsError::TooMany`], which hands all of them back.
    pub fn _user_ids(self, user_ids: Vec<UserId>) -> (outcome: Result<
        RequestGuildMembers,
        UserIdsError,
    >)
        ensures
            outcome_view(outcome) == self@.user_ids(user_ids@),
            user_ids@.len() <= MAX_USER_IDS ==> ({
                &&& outcome matches Ok(request)
                &&& request@.d.user_ids == Some(RequestGuildMemberIdView::Multiple(user_ids@))
                &&& request@.d.query is None
                &&& request@.d.limit is None
                &&& request@.well_formed()
            }),
            user_ids@.len() > MAX_USER_IDS ==> ({
                &&& outcome matches Err(UserIdsError::TooMany { ids })
                &&& ids@ == user_ids@
            }),
    {
        if user_ids.len() > MAX_USER_IDS {
            return Err(UserIdsError::TooMany { ids: user_ids });
        }
        Ok(
            RequestGuildMembers {
                d: RequestGuildMembersInfo {
                    guild_id: self.guild_id,
                    limit: None,
                    nonce: self.nonce,
                    presences: self.presences,
                    query: None,
                    user_ids: Some(RequestGuildMemberId::Multiple(user_ids)),
                },
                op: OpCode::RequestGuildMembers,
            },
        )
    }
}

/// Every request that a builder makes is well formed: it is tagged as a
/// member request, it selects members either by name or by identifier and
/// never by both, and it carries a limit exactly when it selects by name.
pub proof fn lemma_requests_are_well_formed(
    builder: RequestGuildMembersBuilderView,
    query: Seq<char>,
    limit: Option<u64>,
    user_id: UserId,
    user_ids: Seq<UserId>,
)
    ensures
        builder.query(query, limit).well_formed(),
        builder.user_id(user_id).well_formed(),
        builder.user_ids(user_ids) matches Ok(request) ==> request.well_formed(),
{
}

/// Setting the nonce twice leaves the builder as if only the second nonce
/// had been set, and every request made from it carries the second nonce.
pub proof fn lemma_last_nonce_wins(
    builder: RequestGuildMembersBuilderView,
    first: Seq<char>,
    second: Seq<char>,
    query: Seq<char>,
    limit: Option<u64>,
    user_id: UserId,
    user_ids: Seq<UserId>,
)
    ensures
        builder.nonce(first).nonce(second) == builder.nonce(second),
        builder.nonce(first).nonce(second).query(query, limit).d.nonce == Some(second),
        builder.nonce(first).nonce(second).user_id(user_id).d.nonce == Some(second),
        builder.nonce(first).nonce(second).user_ids(user_ids) matches Ok(request)
            ==> request.d.nonce == Some(second),
{
}

/// Setting the presence flag twice leaves the builder as if only the second
/// flag had been set, and every request made from it carries the second
/// flag.
pub proof fn lemma_last_presences_wins(
    builder: RequestGuildMembersBuilderView,
    first: bool,
    second: bool,
    query: Seq<char>,
    limit: Option<u64>,
    user_id: UserId,
    user_ids: Seq<UserId>,
)
    ensures
        builder.presences(first).presences(second) == builder.presences(second),
        builder.presences(first).presences(second).query(query, limit).d.presences == Some(
            second,
        ),
        builder.presences(first).presences(second).user_id(user_id).d.presences == Some(second),
        builder.presences(first).presences(second).user_ids(user_ids) matches Ok(request)
            ==> request.d.presences == Some(second),
{
}

/// What was never set on a builder is absent from the requests that it
/// makes.
pub proof fn lemma_unset_parts_are_absent(
    guild_id: GuildId,
    query: Seq<char>,
    limit: Option<u64>,
    user_id: UserId,
    user_ids: Seq<UserId>,
)
    ensures
        ({
            let request = RequestGuildMembersBuilderView::new(guild_id).query(query, limit);
            request.d.nonce is None && request.d.presences is None
        }),
        ({
            let request = RequestGuildMembersBuilderView::new(guild_id).user_id(user_id);
            request.d.nonce is None && request.d.presences is None
        }),
        RequestGuildMembersBuilderView::new(guild_id).user_ids(user_ids) matches Ok(request)
            ==> request.d.nonce is None && request.d.presences is None,
{
}

/// A request for a list of one identifier is not the request for that
/// identifier alone: which of the two shapes a request has is decided by
/// the way it was made, never by the number of identifiers.
pub proof fn lemma_list_of_one_is_not_single(
    builder: RequestGuildMembersBuilderView,
    user_id: UserId,
)
    ensures
        builder.user_ids(seq![user_id]) is Ok,
        builder.user_ids(seq![user_id])->Ok_0 != builder.user_id(user_id),
        builder.user_ids(seq![user_id])->Ok_0.d.user_ids == Some(
            RequestGuildMemberIdView::Multiple(seq![user_id]),
        ),
{
}

} // verus!
