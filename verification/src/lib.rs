//! A bus through which shells exchange messages and briefings, gated by
//! trust, routes and reachability.
pub mod briefing;
pub mod bus;
pub mod clock;
pub mod kinds;
pub mod message;
pub mod peer;
pub mod route;
pub mod text;

pub use briefing::BriefingLayout;
pub use briefing::EnsignReport;
pub use briefing::RoomReport;
pub use bus::InterShellBus;
pub use clock::current_tick;
pub use clock::current_time_nanos;
pub use kinds::MessagePriority;
pub use kinds::ShellCommError;
pub use kinds::ShellMessageType;
pub use kinds::TrustLevel;
pub use message::ShellMessage;
pub use peer::PeerShell;
pub use route::ShellRoute;
pub use text::simple_hash;
