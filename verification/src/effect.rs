//! What the Bluetooth side is told to do between waiting for one thing and the next.

use vstd::prelude::*;

use crate::bt::{Event, EventView};

verus! {

/// Something to do at once, whose outcome does not matter.
#[derive(Debug)]
pub enum Effect {
    /// Hand an event to the screen.
    Send(Event),
    /// Have the screen drawn again.
    Repaint,
    /// Stop the watcher of paired devices.
    StopWatcher,
    /// Search for Classic devices on a thread of its own.
    SpawnInquiry,
}

/// Something to do, as values.
pub enum EffectView {
    Send(EventView),
    Repaint,
    StopWatcher,
    SpawnInquiry,
}

impl View for Effect {
    type V = EffectView;

    open spec fn view(&self) -> EffectView {
        match *self {
            Effect::Send(e) => EffectView::Send(e@),
            Effect::Repaint => EffectView::Repaint,
            Effect::StopWatcher => EffectView::StopWatcher,
            Effect::SpawnInquiry => EffectView::SpawnInquiry,
        }
    }
}

/// Things to do, as values.
pub open spec fn effect_views(effects: Seq<Effect>) -> Seq<EffectView> {
    effects.map_values(|e: Effect| e@)
}

/// An event for the screen, which is drawn again.
pub fn announce(event: Event) -> (v: Vec<Effect>)
    ensures
        effect_views(v@) == seq![EffectView::Send(event@), EffectView::Repaint],
{
    let ghost e = event@;
    let mut v: Vec<Effect> = Vec::new();
    v.push(Effect::Send(event));
    v.push(Effect::Repaint);
    assert(effect_views(v@) =~= seq![EffectView::Send(e), EffectView::Repaint]);
    v
}

/// Nothing to do.
pub fn nothing() -> (v: Vec<Effect>)
    ensures
        effect_views(v@) == Seq::<EffectView>::empty(),
{
    let v: Vec<Effect> = Vec::new();
    assert(effect_views(v@) =~= Seq::<EffectView>::empty());
    v
}

} // verus!
