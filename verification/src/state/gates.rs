//! The WhatsApp ban gate and the Signal notice. Pairing starts only after
//! the user accepted what the screen says.

use crate::protocol::{AdapterCommand, ProtocolId, WhatsAppPhoneVault};
use crate::state::model::SnapshotModel;
use crate::state::{Mark, SignalScreen, Snapshot, WhatsAppScreen, protocol_chrome_enabled};
use vstd::prelude::*;
use vstd::string::*;

verus! {

impl Snapshot {
    /// WhatsApp pairing chrome: the build holds the part. It does not wait for
    /// a linked Telegram account.
    pub fn whatsapp_pairing_available(&self) -> (r: bool)
        ensures
            r == self@.build.whatsapp_web,
    {
        protocol_chrome_enabled(ProtocolId::WhatsApp, self.build)
    }

    /// A WhatsApp screen shows.
    pub fn whatsapp_gate_open(&self) -> (r: bool)
        ensures
            r == (self@.build.whatsapp_web && self@.whatsapp_screen != WhatsAppScreen::Hidden),
    {
        self.whatsapp_pairing_available() && self.whatsapp_screen != WhatsAppScreen::Hidden
    }

    /// No pairing runs any more: drop the shown codes, and every later code of
    /// the old pairing.
    pub(crate) fn end_pairing(&mut self)
        ensures
            final(self)@ == old(self)@.without_pairing(),
    {
        self.pairing_generation = None;
        self.whatsapp_qr = None;
        self.whatsapp_pair_code = None;
    }

    /// Show the full-screen ban gate. A pairing that runs is cancelled.
    pub fn open_whatsapp_risk_gate(&mut self)
        ensures
            final(self)@ == old(self)@.opening_whatsapp_gate(),
    {
        proof {
            reveal(SnapshotModel::opening_whatsapp_gate);
        }
        if !self.whatsapp_pairing_available() {
            return ;
        }
        if self.whatsapp_started {
            self.queue(AdapterCommand::WhatsAppCancelLink);
        }
        self.whatsapp_screen = WhatsAppScreen::RiskGate;
        self.end_pairing();
        self.whatsapp_started = false;
        self.marks.remove(&Mark::WhatsAppRiskAccepted);
        self.whatsapp_phone = String::new();
    }

    /// Leave the risk gate or the pair screen. After the risk was accepted this is
    /// Cancel. From the risk gate alone it only hides the screen.
    pub fn close_whatsapp_gate(&mut self, phone: &mut WhatsAppPhoneVault)
        ensures
            final(self)@ == old(self)@.closing_whatsapp_gate(),
            final(phone).held() == None::<Seq<char>>,
    {
        proof {
            reveal(SnapshotModel::closing_whatsapp_gate);
        }
        if self.whatsapp_screen == WhatsAppScreen::Pair || self.marks.contains(
            &Mark::WhatsAppRiskAccepted,
        ) || self.whatsapp_started {
            self.cancel_whatsapp_link(phone);
            return ;
        }
        self.whatsapp_screen = WhatsAppScreen::Hidden;
        self.whatsapp_phone = String::new();
        phone.clear();
    }

    /// The user accepted the ban gate. That screen must be on screen.
    pub fn acknowledge_whatsapp_risk(&mut self)
        ensures
            final(self)@ == old(self)@.accepting_whatsapp_risk(),
    {
        proof {
            reveal(SnapshotModel::accepting_whatsapp_risk);
        }
        if self.whatsapp_screen != WhatsAppScreen::RiskGate {
            return ;
        }
        self.marks.insert(Mark::WhatsAppRiskAccepted);
        self.whatsapp_screen = WhatsAppScreen::Pair;
        self.error = None;
        self.status_text = "WhatsApp ban gate accepted. Pairing has not started.".to_owned();
        self.queue(AdapterCommand::WhatsAppAcknowledgeRisk);
    }

    /// A pairing may start: the pair screen shows, the risk gate was accepted,
    /// and no pairing started since.
    pub fn may_pair_whatsapp(&self) -> (r: bool)
        ensures
            r == self@.may_pair_whatsapp(),
    {
        self.whatsapp_screen == WhatsAppScreen::Pair && self.marks.contains(
            &Mark::WhatsAppRiskAccepted,
        ) && !self.whatsapp_started
    }

    /// Start a pairing: only from the pair screen, after the risk gate was accepted.
    pub fn begin_whatsapp_link(&mut self, phone: &mut WhatsAppPhoneVault)
        requires
            old(self)@.may_pair_whatsapp() ==> old(self).next_pairing_generation < u64::MAX,
        ensures
            final(self)@ == old(self)@.pairing_whatsapp(),
            final(phone).held() == old(self)@.phone_after_pairing(old(phone).held()),
    {
        proof {
            reveal(SnapshotModel::pairing_whatsapp);
        }
        if !self.may_pair_whatsapp() {
            return ;
        }
        phone.set_phone(self.whatsapp_phone.as_str());
        self.whatsapp_phone = String::new();
        self.whatsapp_started = true;
        self.error = None;
        self.status_text = "WhatsApp pairing requested.".to_owned();
        let generation: u64 = self.next_pairing_generation;
        self.next_pairing_generation = generation + 1;
        self.pairing_generation = Some(generation);
        self.queue(AdapterCommand::WhatsAppBeginLink { generation });
    }

    /// Stop pairing and drop the accepted risk.
    pub fn cancel_whatsapp_link(&mut self, phone: &mut WhatsAppPhoneVault)
        ensures
            final(self)@ == old(self)@.cancelling_whatsapp(),
            final(phone).held() == None::<Seq<char>>,
    {
        proof {
            reveal(SnapshotModel::cancelling_whatsapp);
        }
        phone.clear();
        self.whatsapp_phone = String::new();
        self.end_pairing();
        self.whatsapp_started = false;
        self.marks.remove(&Mark::WhatsAppRiskAccepted);
        self.whatsapp_screen = WhatsAppScreen::Hidden;
        self.status_text = "WhatsApp pairing cancelled.".to_owned();
        self.queue(AdapterCommand::WhatsAppCancelLink);
    }

    /// Signal linking chrome: the build holds the part.
    pub fn signal_linking_available(&self) -> (r: bool)
        ensures
            r == self@.build.signal_local,
    {
        protocol_chrome_enabled(ProtocolId::Signal, self.build)
    }

    /// A Signal screen shows.
    pub fn signal_gate_open(&self) -> (r: bool)
        ensures
            r == (self@.build.signal_local && self@.signal_screen != SignalScreen::Hidden),
    {
        self.signal_linking_available() && self.signal_screen != SignalScreen::Hidden
    }

    /// Show the full-screen notice. A link that runs is cancelled, unless the
    /// account is linked.
    pub fn open_signal_notice(&mut self)
        ensures
            final(self)@ == old(self)@.opening_signal_notice(),
    {
        proof {
            reveal(SnapshotModel::opening_signal_notice);
        }
        if !self.signal_linking_available() {
            return ;
        }
        if self.protocol_linked(ProtocolId::Signal) {
            self.signal_screen = SignalScreen::Notice;
            self.signal_qr = None;
            return ;
        }
        if self.signal_started {
            self.queue(AdapterCommand::SignalCancelLink);
        }
        self.signal_screen = SignalScreen::Notice;
        self.signal_qr = None;
        self.signal_started = false;
        self.marks.remove(&Mark::SignalNoticeAccepted);
    }

    /// Leave the notice or the link screen. After the notice was accepted this
    /// is Cancel. From the notice alone it only hides the screen.
    pub fn close_signal_gate(&mut self)
        ensures
            final(self)@ == old(self)@.closing_signal_gate(),
    {
        proof {
            reveal(SnapshotModel::closing_signal_gate);
        }
        if self.protocol_linked(ProtocolId::Signal) {
            self.signal_screen = SignalScreen::Hidden;
            self.signal_qr = None;
            return ;
        }
        if self.signal_screen == SignalScreen::Link || self.marks.contains(
            &Mark::SignalNoticeAccepted,
        ) || self.signal_started {
            self.cancel_signal_link();
            return ;
        }
        self.signal_screen = SignalScreen::Hidden;
    }

    /// The user accepted the notice. The notice must be on screen.
    pub fn acknowledge_signal_notice(&mut self)
        ensures
            final(self)@ == old(self)@.accepting_signal_notice(),
    {
        proof {
            reveal(SnapshotModel::accepting_signal_notice);
        }
        if self.signal_screen != SignalScreen::Notice {
            return ;
        }
        self.marks.insert(Mark::SignalNoticeAccepted);
        self.signal_screen = SignalScreen::Link;
        self.error = None;
        self.status_text = "Signal local-build notice accepted. Linking has not started.".to_owned();
        self.queue(AdapterCommand::SignalAcknowledgeNotice);
    }

    /// Start a link: only from the link screen, after the notice was accepted.
    pub fn begin_signal_link(&mut self)
        requires
            old(self)@.may_link_signal() ==> old(self).next_pairing_generation < u64::MAX,
        ensures
            final(self)@ == old(self)@.linking_signal(),
    {
        proof {
            reveal(SnapshotModel::linking_signal);
        }
        if self.signal_screen != SignalScreen::Link || !self.marks.contains(
            &Mark::SignalNoticeAccepted,
        ) || self.signal_started {
            return ;
        }
        self.signal_started = true;
        self.error = None;
        self.status_text = "Signal linking requested.".to_owned();
        let generation: u64 = self.next_pairing_generation;
        self.next_pairing_generation = generation + 1;
        self.pairing_generation = Some(generation);
        self.queue(AdapterCommand::SignalBeginLink { generation });
    }

    /// Stop linking and drop the accepted notice.
    pub fn cancel_signal_link(&mut self)
        ensures
            final(self)@ == old(self)@.cancelling_signal(),
    {
        proof {
            reveal(SnapshotModel::cancelling_signal);
        }
        self.pairing_generation = None;
        self.signal_qr = None;
        self.signal_started = false;
        self.marks.remove(&Mark::SignalNoticeAccepted);
        self.signal_screen = SignalScreen::Hidden;
        self.status_text = "Signal linking cancelled.".to_owned();
        self.queue(AdapterCommand::SignalCancelLink);
    }
}

} // verus!
