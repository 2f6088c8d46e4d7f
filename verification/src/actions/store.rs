//! The trigger state store: one state per automated behaviour, owned in one
//! place and handed to the handlers.
//!
//! Each behaviour reads and writes its own state only. The dispatcher brings
//! the shared detectors up to date with every snapshot before it calls a
//! handler, so that no handler sees a detector older than the snapshot it
//! reacts to.

use vstd::prelude::*;
use crate::actions::bottle_optimization::BottleOptimizationState;
use crate::actions::common::ArmletState;
use crate::actions::danger_detector::{danger_step, HpTracker};
use crate::actions::power_treads::{treads_after_snapshot, PowerTreadsState};
use crate::actions::soul_ring::SoulRingState;
use crate::config::settings::Settings;
use crate::models::gsi_event::GsiWebhookEvent;

verus! {

/// The states of the shared behaviours.
#[derive(Debug)]
pub struct TriggerStore {
    /// The danger detector.
    pub danger: HpTracker,
    /// The armlet toggle.
    pub armlet: ArmletState,
    /// The mana-restoring ring.
    pub soul_ring: SoulRingState,
    /// The treads.
    pub power_treads: PowerTreadsState,
    /// The batch reorganizer.
    pub bottle: BottleOptimizationState,
    /// Whether a dispel was already used against the current silence.
    pub dispel_triggered: bool,
    /// The latest snapshot, for behaviours that act between snapshots.
    pub latest_event: Option<GsiWebhookEvent>,
}

impl TriggerStore {
    /// Every behaviour in its initial state, and no snapshot yet.
    pub fn new() -> (r: Self)
        ensures
            r.danger == HpTracker::initial(),
            r.armlet == ArmletState::initial(),
            r.soul_ring@ == crate::actions::soul_ring::SoulRingView::initial(),
            r.power_treads == PowerTreadsState::initial(),
            r.bottle@ == crate::actions::bottle_optimization::BottleOptimizationView::initial(),
            !r.dispel_triggered,
            r.latest_event is None,
    {
        TriggerStore {
            danger: HpTracker::new(),
            armlet: ArmletState::new(),
            soul_ring: SoulRingState::new(),
            power_treads: PowerTreadsState::new(),
            bottle: BottleOptimizationState::new(),
            dispel_triggered: false,
            latest_event: None,
        }
    }

    /// Whether the hero counts as in danger.
    pub open spec fn in_danger(self) -> bool {
        self.danger.danger_detected
    }

    /// The detectors are up to date with `event`: each is the result of its
    /// own step from `before`, and the snapshot is the latest one. What the
    /// snapshot does not feed is unchanged.
    pub open spec fn follows(
        self,
        before: TriggerStore,
        event: GsiWebhookEvent,
        settings: Settings,
        now: u64,
    ) -> bool {
        &&& self.danger == danger_step(before.danger, event.hero, settings.danger_detection, now)
        &&& self.soul_ring@ == before.soul_ring@.after_snapshot(event.items, event.hero, settings)
        &&& self.power_treads == treads_after_snapshot(
            before.power_treads,
            event.items,
            event.hero,
            settings,
        )
        &&& self.bottle@ == before.bottle@.after_snapshot(
            event.items,
            event.hero,
            event.map,
            settings,
        )
        &&& self.latest_event == Some(event)
        &&& self.armlet == before.armlet
        &&& self.dispel_triggered == before.dispel_triggered
    }

    /// Brings every shared detector up to date with a snapshot.
    pub fn update_detectors(&mut self, event: &GsiWebhookEvent, settings: &Settings, now_ms: u64)
        ensures
            final(self).follows(*old(self), *event, *settings, now_ms),
    {
        crate::actions::danger_detector::update(
            &mut self.danger,
            event,
            &settings.danger_detection,
            now_ms,
        );
        crate::actions::soul_ring::update_from_gsi(
            &mut self.soul_ring,
            &event.items,
            &event.hero,
            settings,
        );
        crate::actions::power_treads::update_from_gsi(
            &mut self.power_treads,
            &event.items,
            &event.hero,
            settings,
        );
        crate::actions::bottle_optimization::update_from_gsi(
            &mut self.bottle,
            &event.items,
            &event.hero,
            &event.map,
            settings,
        );
        crate::actions::auto_items::update_gsi_state(&mut self.latest_event, event);
    }
}

} // verus!
