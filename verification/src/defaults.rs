use vstd::prelude::*;

verus! {

/// Price of a personality potential reading, in lamports (0.01 SOL).
pub const POTENSI_SOL: u64 = 10_000_000;

/// Price of a daily opportunity reading, in lamports (0.001 SOL).
pub const PELUANG_SOL: u64 = 1_000_000;

/// Price of an AI consultation, in lamports (0.002 SOL).
pub const AI_CHAT_SOL: u64 = 2_000_000;

/// Price of a compatibility reading, in lamports (0.005 SOL).
pub const COMPATIBILITY_SOL: u64 = 5_000_000;

/// Price of a personality potential reading, in token units (10 NEPTU).
pub const POTENSI_NEPTU: u64 = 10_000_000;

/// Price of a daily opportunity reading, in token units (1 NEPTU).
pub const PELUANG_NEPTU: u64 = 1_000_000;

/// Price of an AI consultation, in token units (2 NEPTU).
pub const AI_CHAT_NEPTU: u64 = 2_000_000;

/// Price of a compatibility reading, in token units (5 NEPTU).
pub const COMPATIBILITY_NEPTU: u64 = 5_000_000;

} // verus!
