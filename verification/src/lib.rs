//! An input-method bridge library.
//!
//! The library holds the verified core of an IBus input-method component:
//! the paginated candidate lookup table, the line-oriented wire messages
//! exchanged with the backend conversion server, the key-event state
//! machine that decides which keystrokes are claimed for composition, and
//! the small pure helpers around engine creation and address discovery.
pub mod addr;
pub mod error;
pub mod factory;
pub mod json;
pub mod keys;
pub mod km;
pub mod lookup_table;
pub mod preedit;
pub mod wire;
