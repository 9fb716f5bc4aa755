use vstd::prelude::*;

verus! {

/// Screen width, in cells, of a freshly created state.
pub const DEFAULT_WIDTH: u16 = 80;

/// Screen height, in cells, of a freshly created state.
pub const DEFAULT_HEIGHT: u16 = 24;

/// The root record of shared application state.
///
/// `version` is the change-detection counter: readers compare two
/// observations of it to learn whether anything changed in between, so every
/// change to `width`, `height` or `running` goes together with a `touch`.
#[derive(Debug, Clone, Copy, PartialEq, Eq, Structural)]
pub struct TuiState {
    /// Current screen width in cells.
    pub width: u16,
    /// Current screen height in cells.
    pub height: u16,
    /// Whether the application's main loop is active.
    pub running: bool,
    /// Change-detection counter; grows by one per `touch`, modulo 2^64.
    pub version: u64,
}

/// The number of distinct counter values: arithmetic on `version` is modulo this.
pub open spec fn version_modulus() -> int {
    u64::MAX as int + 1
}

impl TuiState {
    /// The state every application starts from.
    pub open spec fn initial() -> TuiState {
        TuiState { width: DEFAULT_WIDTH, height: DEFAULT_HEIGHT, running: false, version: 0 }
    }

    /// The state after one `touch`: the counter advances by one, wrapping to
    /// zero past `u64::MAX`, and nothing else changes.
    pub open spec fn touched(self) -> TuiState {
        TuiState { version: ((self.version + 1) % version_modulus()) as u64, ..self }
    }

    /// The state after `n` successive touches.
    pub open spec fn touched_times(self, n: nat) -> TuiState
        decreases n,
    {
        if n == 0 {
            self
        } else {
            self.touched_times((n - 1) as nat).touched()
        }
    }

    /// Creates the initial state: an 80 by 24 screen, not running, version 0.
    pub fn new() -> (r: TuiState)
        ensures
            r == TuiState::initial(),
            r.width == 80,
            r.height == 24,
            !r.running,
            r.version == 0,
    {
        TuiState { width: DEFAULT_WIDTH, height: DEFAULT_HEIGHT, running: false, version: 0 }
    }

    /// Marks the state as changed by advancing the counter by one, wrapping
    /// to zero on overflow. Nothing else changes.
    pub fn touch(&mut self)
        ensures
            *final(self) == old(self).touched(),
            final(self).version == (old(self).version + 1) % version_modulus(),
            final(self).width == old(self).width,
            final(self).height == old(self).height,
            final(self).running == old(self).running,
    {
        let ghost before = self.version;
        self.version = self.version.wrapping_add(1);
        proof {
            if before == u64::MAX {
                vstd::arithmetic::div_mod::lemma_mod_self_0(version_modulus());
            } else {
                vstd::arithmetic::div_mod::lemma_small_mod((before + 1) as nat, version_modulus() as nat);
            }
        }
    }
}

impl Default for TuiState {
    fn default() -> (r: TuiState)
        ensures
            r == TuiState::initial(),
    {
        TuiState::new()
    }
}

/// Touching a state `n` times starting from version `v` leaves version
/// `(v + n) mod 2^64` and the screen size and running flag as they were.
pub proof fn lemma_touched_times(s: TuiState, n: nat)
    ensures
        s.touched_times(n).version == (s.version + n) % version_modulus(),
        s.touched_times(n).width == s.width,
        s.touched_times(n).height == s.height,
        s.touched_times(n).running == s.running,
    decreases n,
{
    if n == 0 {
        vstd::arithmetic::div_mod::lemma_small_mod(s.version as nat, version_modulus() as nat);
    } else {
        lemma_touched_times(s, (n - 1) as nat);
        let m = version_modulus();
        let prev = (s.version + (n - 1)) % m;
        assert(((prev + 1) % m) == (s.version + n) % m) by {
            vstd::arithmetic::div_mod::lemma_add_mod_noop(s.version + (n - 1), 1, m);
            vstd::arithmetic::div_mod::lemma_small_mod(1, m as nat);
        }
    }
}

} // verus!
