pub mod dispatcher;
pub mod oncedispatcher;
pub mod uidispatcher;
pub mod waitfordispatcher;
pub mod windowdispatcher;
