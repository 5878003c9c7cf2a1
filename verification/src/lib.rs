//! Input checks, output layouts and refusal messages of a set of technical
//! analysis indicators (SMA, EMA, RSI, MACD, ROC, ATR, CMF).
pub mod text;
pub mod error;
pub mod shape;
pub mod layout;
pub mod window;
