//! Construction of the gateway command that asks for the members of a guild.
//!
//! A [`RequestGuildMembersBuilder`] collects the optional parts of the
//! command, a nonce and a presence flag, and then makes the command in one
//! of three ways: for the members whose names start with a given string,
//! for one member, or for a list of at most [`MAX_USER_IDS`] members.

pub mod builder;
pub mod decimal;
pub mod error;
pub mod id;
pub mod opcode;
pub mod payload;

pub use builder::{RequestGuildMembersBuilder, RequestGuildMembersBuilderView};
pub use error::{UserIdsError, UserIdsErrorView, MAX_USER_IDS};
pub use id::{GuildId, UserId};
pub use opcode::OpCode;
pub use payload::{
    RequestGuildMemberId, RequestGuildMemberIdView, RequestGuildMembers, RequestGuildMembersInfo,
    RequestGuildMembersInfoView, RequestGuildMembersView,
};
