//! Client side of the local control protocol of the mudband service:
//! request encoding, reply decoding, per-command interpretation,
//! message framing and the persisted UI preferences.
pub mod json;
pub mod number;
pub mod protocol;
pub mod framing;
pub mod dispatch;
pub mod preferences;
