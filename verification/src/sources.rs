//! Device-code fragments of the counter-based generator kernels.
//!
//! Each fragment assumes that the thread index `x` is bound and that the
//! state buffer `src` holds `l` words per thread, at `[x*l, x*l + l)`.
use vstd::prelude::*;

verus! {

/// The key of a thread on two 64-bit lanes: its index.
pub const PHILOX2X64_KEY: &'static str = "    ulong key = x;\n";

/// Ten rounds on two 64-bit lanes.
pub const PHILOX2X64_ROUNDS: &'static str = "    const uint l = 2;
    const ulong M = 0xD2B74407B1CE6E93;
    for(int i = 0;i<10;i++){
        ulong hi = mul_hi(M,src[x*l+0]);
        ulong lo = M * src[x*l+0];
        src[x*l+0] = hi^key^src[x*l+1];
        src[x*l+1] = lo;
        key += 0x9E3779B97F4A7C15;
    }
";

/// The two key words of a thread on four 64-bit lanes: zero and its index.
pub const PHILOX4X64_KEY: &'static str = "    ulong key[2] = {0,x};\n";

/// Ten rounds on four 64-bit lanes: lane 0 is multiplied by `M`, lane 2 by `M2`.
pub const PHILOX4X64_ROUNDS: &'static str = "    const uint l = 4;
    const ulong M = 0xD2B74407B1CE6E93;
    const ulong M2 = 0xCA5A826395121157;
    for(int i = 0;i<10;i++){
        ulong hi0 = mul_hi(M,src[x*l+0]);
        ulong lo0 = M * src[x*l+0];
        ulong hi1 = mul_hi(M2,src[x*l+2]);
        ulong lo1 = M2 * src[x*l+2];
        src[x*l+0] = hi1^key[1]^src[x*l+3];
        src[x*l+2] = hi0^key[0]^src[x*l+1];
        src[x*l+1] = lo0;
        src[x*l+3] = lo1;
        key[0] += 0x9E3779B97F4A7C15;
        key[1] += 0xBB67AE8584CAA73B;
    }
";

/// The two key words of a thread on four 32-bit lanes: the high and the low
/// half of its index.
pub const PHILOX4X32_KEY: &'static str = "    uint key[2] = {x>>32,x};\n";

/// Ten rounds on four 32-bit lanes: lane 0 is multiplied by `M`, lane 2 by `M2`.
pub const PHILOX4X32_ROUNDS: &'static str = "    const uint l = 4;
    const uint M = 0xD2511F53;
    const uint M2 = 0xCD9E8D57;
    for(int i = 0;i<10;i++){
        uint hi0 = mul_hi(M,src[x*l+0]);
        uint lo0 = M * src[x*l+0];
        uint hi1 = mul_hi(M2,src[x*l+2]);
        uint lo1 = M2 * src[x*l+2];
        src[x*l+0] = hi1^key[1]^src[x*l+3];
        src[x*l+2] = hi0^key[0]^src[x*l+1];
        src[x*l+1] = lo0;
        src[x*l+3] = lo1;
        key[0] += 0x9E3779B9;
        key[1] += 0xBB67AE85;
    }
";

/// Each 64-bit word, without its low 11 bits, scaled by 2^-53: one output
/// per state word.
pub const UNIT_FROM_64: &'static str = "    for(uint i = 0;i<l;i++)
        dst[x*l+i] = (double)(src[x*l+i]>>11)/(1l << 53);";

/// Box-Muller on pairs of uniform values, each taken from one 64-bit word.
/// The first value of a pair is assumed to be above zero; it is not clamped.
pub const NORMAL_FROM_64: &'static str = "    for(uint i = 0;i<l;i+=2) {
        double u1 = (double)(src[x*l+i]>>11)/(1l << 53);
        double u2 = (double)(src[x*l+i+1]>>11)/(1l << 53);
        dst[x*l+i] = sqrt(-2*log(u1))*cos(2*M_PI*u2);
        dst[x*l+i+1] = sqrt(-2*log(u1))*sin(2*M_PI*u2);
    }";

/// Adjacent 32-bit lanes joined into one 64-bit word, then scaled as the
/// 64-bit words are: one output per two state words.
pub const UNIT_FROM_32: &'static str = "    const uint l2 = l/2;
    for(uint i = 0;i<l2;i++)
        dst[x*l2+i] = (double)(((((ulong)src[x*l+i*2])<<32)+src[x*l+i*2+1])>>11)/(1l << 53);";

/// Box-Muller on one pair of uniform values, each joined from two 32-bit
/// lanes. The first value of the pair is assumed to be above zero; it is not
/// clamped.
pub const NORMAL_FROM_32: &'static str = "    const uint l2 = l/2;
    for(uint i = 0;i<l2;i+=2) {
        double u1 = (double)(((((ulong)src[x*l+i])<<32)+src[x*l+i+1])>>11)/(1l << 53);
        double u2 = (double)(((((ulong)src[x*l+i+2])<<32)+src[x*l+i+3])>>11)/(1l << 53);
        dst[x*l2+i] = sqrt(-2*log(u1))*cos(2*M_PI*u2);
        dst[x*l2+i+1] = sqrt(-2*log(u1))*sin(2*M_PI*u2);
    }";

} // verus!
