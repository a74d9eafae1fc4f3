//! The core of an editor-triggered test runner: editors signal "run this
//! test" requests as trigger events; an ordered rule table matches each
//! trigger against configured actions and builds the shell command of the
//! first match, substituting `{{ placeholder }}` tokens from the trigger and
//! from regex-extracted variables; a signal pipeline merges pipe input and
//! the process interrupt into one serialized event stream for the consumer.

pub mod capture;
pub mod config;
pub mod decimal;
pub mod errors;
pub mod pipe;
pub mod signal;
pub mod template;
pub mod trigger;
pub mod values;
