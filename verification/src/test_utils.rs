//! Stand-ins for the outside of the engine.
use crate::action::{Alert, AlertView};
use crate::correlator::AlertHandler;
use vstd::prelude::*;

verus! {

/// The alerts behind a list of alerts.
pub open spec fn alert_views(alerts: Seq<Alert>) -> Seq<AlertView> {
    alerts.map_values(|alert: Alert| alert@)
}

/// A handler that keeps the alerts it receives.
pub struct MockAlertHandler(pub Vec<Alert>);

impl MockAlertHandler {
    /// A handler that has received nothing yet.
    pub fn new() -> (handler: MockAlertHandler)
        ensures
            handler.0@ == Seq::<Alert>::empty(),
            handler.handled() == Seq::<AlertView>::empty(),
    {
        let handler = MockAlertHandler(Vec::new());
        proof {
            assert(alert_views(handler.0@) =~= Seq::empty());
        }
        handler
    }
}

impl AlertHandler for MockAlertHandler {
    open spec fn handled(&self) -> Seq<AlertView> {
        alert_views(self.0@)
    }

    fn on_alert(&mut self, alert: Alert)
        ensures
            final(self).0@ == old(self).0@.push(alert),
    {
        proof {
            assert(alert_views(self.0@.push(alert)) =~= alert_views(self.0@).push(alert@));
        }
        self.0.push(alert);
    }
}

} // verus!
