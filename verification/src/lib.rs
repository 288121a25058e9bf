//! The decision logic of an assistant that takes the "hardcore member"
//! quiz of a video site with the help of a language model: the quiz state
//! machine, session bookkeeping, answer parsing, prompt and request
//! building, and the small computations behind the user interface.
pub mod text;
pub mod config;
pub mod llm;
pub mod answer;
pub mod app;
pub mod session;
pub mod flow;
pub mod events;
pub mod qr;
pub mod view;
pub mod laws;
pub mod replies;
