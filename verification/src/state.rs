use vstd::prelude::*;

verus! {

broadcast use vstd::array::group_array_axioms;

/// The canonical input record: 16 button slots followed by 3 auxiliary
/// slots. Every element is 0 (released) or 1 (pressed); the auxiliary
/// slots are reserved and stay 0 under the current protocol.
#[derive(Debug, Clone, Copy, Default)]
pub struct Input {
    pub buttons: [u8; 16],
    pub extra: [u8; 3],
}

impl Input {
    /// Every slot of both arrays holds 0 or 1.
    pub open spec fn wf(&self) -> bool {
        &&& forall|i: int| 0 <= i < 16 ==> (self.buttons@[i] == 0 || self.buttons@[i] == 1)
        &&& forall|i: int| 0 <= i < 3 ==> (self.extra@[i] == 0 || self.extra@[i] == 1)
    }

    /// All-zero record: no button pressed, auxiliary slots clear.
    pub fn new() -> (inp: Self)
        ensures
            inp.wf(),
            forall|i: int| 0 <= i < 16 ==> inp.buttons@[i] == 0,
            forall|i: int| 0 <= i < 3 ==> inp.extra@[i] == 0,
    {
        Input { buttons: [0u8; 16], extra: [0u8; 3] }
    }

    /// The record as 19 booleans: one per button slot, then one per
    /// auxiliary slot, true exactly where the stored byte is non-zero.
    pub fn to_flat(&self) -> (flat: Vec<bool>)
        ensures
            flat@.len() == 19,
            forall|i: int| 0 <= i < 16 ==> flat@[i] == (self.buttons@[i] > 0),
            forall|i: int| 0 <= i < 3 ==> flat@[16 + i] == (self.extra@[i] > 0),
    {
        let mut flat: Vec<bool> = Vec::new();
        let mut i: usize = 0;
        while i < 16
            invariant
                i <= 16,
                flat@.len() == i as int,
                forall|j: int| 0 <= j < i ==> flat@[j] == (self.buttons@[j] > 0),
            decreases 16 - i,
        {
            flat.push(self.buttons[i] > 0);
            i += 1;
        }
        let mut k: usize = 0;
        while k < 3
            invariant
                k <= 3,
                flat@.len() == 16 + k as int,
                forall|j: int| 0 <= j < 16 ==> flat@[j] == (self.buttons@[j] > 0),
                forall|j: int| 0 <= j < k ==> flat@[16 + j] == (self.extra@[j] > 0),
            decreases 3 - k,
        {
            flat.push(self.extra[k] > 0);
            k += 1;
        }
        flat
    }

    /// Sets one button slot: 1 when pressed, 0 when released; every other
    /// slot and the auxiliary bytes keep their value.
    pub fn set_button(&mut self, index: usize, pressed: bool)
        requires
            index < 16,
        ensures
            final(self).buttons@ == old(self).buttons@.update(
                index as int,
                (if pressed { 1u8 } else { 0u8 }),
            ),
            final(self).extra == old(self).extra,
    {
        self.buttons[index] = if pressed { 1 } else { 0 };
    }

    /// Releases every button; the auxiliary bytes keep their value.
    pub fn reset_all(&mut self)
        ensures
            forall|i: int| 0 <= i < 16 ==> final(self).buttons@[i] == 0,
            final(self).extra == old(self).extra,
            old(self).wf() ==> final(self).wf(),
    {
        let mut i: usize = 0;
        while i < 16
            invariant
                i <= 16,
                forall|j: int| 0 <= j < i ==> self.buttons@[j] == 0,
                self.extra == old(self).extra,
            decreases 16 - i,
        {
            self.buttons[i] = 0;
            i += 1;
        }
    }

    /// The 19-byte flat form: the 16 button bytes, then the 3 auxiliary
    /// bytes, in slot order.
    pub fn snapshot_bytes(&self) -> (buf: Vec<u8>)
        ensures
            buf@.len() == 19,
            forall|i: int| 0 <= i < 16 ==> buf@[i] == self.buttons@[i],
            forall|i: int| 0 <= i < 3 ==> buf@[16 + i] == self.extra@[i],
    {
        let mut buf: Vec<u8> = Vec::new();
        let mut i: usize = 0;
        while i < 16
            invariant
                i <= 16,
                buf@.len() == i as int,
                forall|j: int| 0 <= j < i ==> buf@[j] == self.buttons@[j],
            decreases 16 - i,
        {
            buf.push(self.buttons[i]);
            i += 1;
        }
        let mut k: usize = 0;
        while k < 3
            invariant
                k <= 3,
                buf@.len() == 16 + k as int,
                forall|j: int| 0 <= j < 16 ==> buf@[j] == self.buttons@[j],
                forall|j: int| 0 <= j < k ==> buf@[16 + j] == self.extra@[j],
            decreases 3 - k,
        {
            buf.push(self.extra[k]);
            k += 1;
        }
        buf
    }
}

} // verus!
