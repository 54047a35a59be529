//! Choosing the graphics mode: out of the modes the firmware offers, the
//! largest usable one within a size budget wins. Walking the firmware's
//! mode list happens outside this library; the choice itself takes each
//! mode's geometry and usability as plain values.

use vstd::prelude::*;

verus! {

/// One offered graphics mode: its resolution, and whether its pixel
/// layout is one the console can draw into.
#[derive(Clone, Copy, PartialEq, Eq, Structural, Debug)]
pub struct ModeChoice {
    pub width: usize,
    pub height: usize,
    pub usable: bool,
}

/// Whether a mode may be picked: usable, and within the size budget.
pub open spec fn viable(m: ModeChoice, max_width: int, max_height: int) -> bool {
    m.usable && m.width <= max_width && m.height <= max_height
}

/// The ordering modes compete under: width first, then height.
pub open spec fn mode_le(a: ModeChoice, b: ModeChoice) -> bool {
    a.width < b.width || (a.width == b.width && a.height <= b.height)
}

/// Picks the largest viable mode, width-major; among equals the latest
/// offer wins. `None` reports that no offered mode is viable.
pub fn select_mode(modes: &Vec<ModeChoice>, max_width: usize, max_height: usize) -> (r: Option<
    usize,
>)
    ensures
        match r {
            Some(i) => {
                &&& i < modes@.len()
                &&& viable(modes@[i as int], max_width as int, max_height as int)
                &&& forall|j: int|
                    0 <= j < modes@.len() && viable(
                        #[trigger] modes@[j],
                        max_width as int,
                        max_height as int,
                    ) ==> mode_le(modes@[j], modes@[i as int])
                &&& forall|j: int|
                    i < j < modes@.len() && viable(
                        #[trigger] modes@[j],
                        max_width as int,
                        max_height as int,
                    ) ==> !mode_le(modes@[i as int], modes@[j])
            },
            None => forall|j: int|
                0 <= j < modes@.len() ==> !viable(
                    #[trigger] modes@[j],
                    max_width as int,
                    max_height as int,
                ),
        },
{
    let mut best: Option<usize> = None;
    let n = modes.len();
    let mut i: usize = 0;
    while i < n
        invariant
            n == modes@.len(),
            i <= n,
            match best {
                Some(b) => {
                    &&& b < i
                    &&& viable(modes@[b as int], max_width as int, max_height as int)
                    &&& forall|j: int|
                        0 <= j < i && viable(
                            #[trigger] modes@[j],
                            max_width as int,
                            max_height as int,
                        ) ==> mode_le(modes@[j], modes@[b as int])
                    &&& forall|j: int|
                        b < j < i && viable(
                            #[trigger] modes@[j],
                            max_width as int,
                            max_height as int,
                        ) ==> !mode_le(modes@[b as int], modes@[j])
                },
                None => forall|j: int|
                    0 <= j < i ==> !viable(
                        #[trigger] modes@[j],
                        max_width as int,
                        max_height as int,
                    ),
            },
        decreases n - i,
    {
        let m = modes[i];
        if m.usable && m.width <= max_width && m.height <= max_height {
            let replace = match best {
                Some(b) => {
                    let held = modes[b];
                    held.width < m.width || (held.width == m.width && held.height <= m.height)
                },
                None => true,
            };
            if replace {
                best = Some(i);
            }
        }
        i = i + 1;
    }
    best
}

} // verus!
