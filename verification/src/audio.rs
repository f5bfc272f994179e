//! Integer policies of the Web Audio compatibility layer: analyser window
//! sizes and the ids handed out for playing sources and analysers.
use vstd::prelude::*;

verus! {

/// Analyser window used until a script configures one.
pub const DEFAULT_ANALYSER_FFT_SIZE: usize = 2048;

/// Largest analyser window.
pub const MAX_ANALYSER_FFT_SIZE: usize = 32768;

/// Smallest analyser window.
pub const MIN_ANALYSER_FFT_SIZE: usize = 32;

/// `n` is a power of two.
pub open spec fn is_power_of_two(n: nat) -> bool
    decreases n,
{
    if n == 1 {
        true
    } else if n < 2 || n % 2 != 0 {
        false
    } else {
        is_power_of_two(n / 2)
    }
}

/// Smallest power of two that is at least `n`, found by doubling `p`.
pub open spec fn power_of_two_at_least(n: nat, p: nat) -> nat
    decreases (if p >= n {
        0
    } else {
        n - p
    }),
{
    if p == 0 || p >= n {
        p
    } else {
        power_of_two_at_least(n, 2 * p)
    }
}

/// `value` clamped to `[lo, hi]`.
pub open spec fn clamp(value: int, lo: int, hi: int) -> int {
    if value < lo {
        lo
    } else if value > hi {
        hi
    } else {
        value
    }
}

/// The analyser window a requested size becomes: clamped to
/// `[32, 32768]`, then rounded up to a power of two (`usize::next_power_of_two`),
/// then capped at 32768.
pub open spec fn fft_size_for(value: nat) -> nat {
    let p = power_of_two_at_least(clamp(value as int, 32, 32768) as nat, 1);
    if p > 32768 {
        32768
    } else {
        p
    }
}

/// Turns a requested analyser window size into a supported one.
pub fn sanitize_fft_size(value: usize) -> (r: usize)
    ensures
        r as nat == fft_size_for(value as nat),
{
    let clamped = if value < MIN_ANALYSER_FFT_SIZE {
        MIN_ANALYSER_FFT_SIZE
    } else if value > MAX_ANALYSER_FFT_SIZE {
        MAX_ANALYSER_FFT_SIZE
    } else {
        value
    };
    let mut p: usize = 1;
    while p < clamped
        invariant
            1 <= p <= 65536,
            clamped <= 32768,
            power_of_two_at_least(clamped as nat, 1) == power_of_two_at_least(clamped as nat, p as nat),
        decreases 65536 - p,
    {
        p = p * 2;
    }
    if p > MAX_ANALYSER_FFT_SIZE {
        MAX_ANALYSER_FFT_SIZE
    } else {
        p
    }
}

proof fn lemma_power_of_two_at_least(n: nat, p: nat)
    requires
        is_power_of_two(p),
        p <= 32768,
        n <= 32768,
    ensures
        is_power_of_two(power_of_two_at_least(n, p)),
        power_of_two_at_least(n, p) >= n,
        power_of_two_at_least(n, p) >= p,
        power_of_two_at_least(n, p) <= 32768,
    decreases (if p >= n {
        0
    } else {
        n - p
    }),
{
    if !(p == 0 || p >= n) {
        assert((2 * p) / 2 == p);
        assert(is_power_of_two(32768)) by {
            reveal_with_fuel(is_power_of_two, 17);
        }
        lemma_power_of_two_divides(32768, p);
        lemma_power_of_two_at_least(n, 2 * p);
    }
}

/// Every analyser window the layer uses is a power of two between 32 and
/// 32768, and sanitising a supported size leaves it unchanged.
pub proof fn lemma_fft_size_is_supported(value: nat)
    ensures
        is_power_of_two(fft_size_for(value)),
        32 <= fft_size_for(value) <= 32768,
        fft_size_for(fft_size_for(value)) == fft_size_for(value),
{
    let c = clamp(value as int, 32, 32768) as nat;
    lemma_power_of_two_at_least(c, 1);
    let r = fft_size_for(value);
    lemma_power_of_two_fixed(r, 1);
}

proof fn lemma_power_of_two_fixed(n: nat, p: nat)
    requires
        is_power_of_two(n),
        is_power_of_two(p),
        p <= n,
    ensures
        power_of_two_at_least(n, p) == n,
    decreases n - p,
{
    if p < n {
        lemma_power_of_two_divides(n, p);
        assert((2 * p) / 2 == p);
        lemma_power_of_two_fixed(n, 2 * p);
    }
}

proof fn lemma_power_of_two_divides(n: nat, p: nat)
    requires
        is_power_of_two(n),
        is_power_of_two(p),
        p < n,
    ensures
        2 * p <= n,
    decreases n,
{
    if p > 1 {
        lemma_power_of_two_divides(n / 2, p / 2);
    } else {
        assert(n >= 2);
    }
}

/// The id an allocator made by `AudioIds::new` hands out on its call
/// number `k` (from 0): 1, 2, ..., `u64::MAX`, then 1 again.
pub open spec fn audio_id_after(k: nat) -> u64
    decreases k,
{
    if k == 0 {
        1
    } else {
        let previous = audio_id_after((k - 1) as nat);
        if previous == u64::MAX {
            1
        } else {
            (previous + 1) as u64
        }
    }
}

/// Before the wrap, call number `k` hands out `k + 1`.
proof fn lemma_audio_id_before_wrap(k: nat)
    requires
        k < u64::MAX,
    ensures
        audio_id_after(k) == k + 1,
    decreases k,
{
    if k > 0 {
        lemma_audio_id_before_wrap((k - 1) as nat);
    }
}

/// An allocator never hands out the same id twice within its first
/// `u64::MAX` calls: calls `j` and `k` (counted from `AudioIds::new`, as
/// `issued` counts them) give different ids.
pub proof fn law_audio_ids_never_repeat(j: nat, k: nat)
    requires
        j < k < u64::MAX,
    ensures
        audio_id_after(j) != audio_id_after(k),
{
    lemma_audio_id_before_wrap(j);
    lemma_audio_id_before_wrap(k);
}

/// Source of the non-zero ids the audio engine hands out for playing
/// sources and analysers; after `u64::MAX` it wraps back to 1.
pub struct AudioIds {
    next: u64,
    issued: Ghost<nat>,
}

impl AudioIds {
    /// The next id is the one for the number of ids handed out so far, and
    /// so never 0.
    #[verifier::type_invariant]
    spec fn next_follows_count(&self) -> bool {
        &&& self.next == audio_id_after(self.issued@)
        &&& self.next != 0
    }

    /// The id the next call of `allocate` returns.
    pub closed spec fn next(&self) -> u64 {
        self.next
    }

    /// How many ids the allocator has handed out.
    pub closed spec fn issued(&self) -> nat {
        self.issued@
    }

    /// Ids start at 1.
    pub fn new() -> (r: Self)
        ensures
            r.next() == 1,
            r.issued() == 0,
    {
        AudioIds { next: 1, issued: Ghost(0) }
    }

    /// Hands out the current id and moves on (`wrapping_add(1).max(1)`).
    pub fn allocate(&mut self) -> (id: u64)
        ensures
            id == old(self).next(),
            id == audio_id_after(old(self).issued()),
            id != 0,
            final(self).issued() == old(self).issued() + 1,
            final(self).next() == if id == u64::MAX {
                1
            } else {
                (id + 1) as u64
            },
            final(self).next() != 0,
    {
        proof {
            use_type_invariant(&*self);
        }
        let id = self.next;
        let next = if id == u64::MAX {
            1
        } else {
            id + 1
        };
        let ghost issued = self.issued@ + 1;
        assert(next == audio_id_after(issued));
        *self = AudioIds { next, issued: Ghost(issued) };
        id
    }
}

} // verus!
