//! A wide, non-decreasing tick clock and a deadline programmer built on a
//! narrow, wrapping hardware counter (the nRF52 RTC family).

pub mod monotonic_nrf52_rtc;
pub mod rtc;
