//! The variant that maps textures: when it is active, and how.

use super::{has_hlg, has_pq, Transfer};
use vstd::prelude::*;

verus! {

/// The transfer function that caps name, HLG before PQ.
pub open spec fn detected(caps: Seq<char>) -> Option<Transfer> {
    if super::names_hlg(caps) {
        Some(Transfer::Hlg)
    } else if super::names_pq(caps) {
        Some(Transfer::Pq)
    } else {
        None
    }
}

/// The transfer function that caps name, written as text.
pub fn detect_hdr_transfer(caps: &str) -> (transfer: Option<Transfer>)
    ensures
        transfer == detected(caps@),
{
    if has_hlg(caps) {
        Some(Transfer::Hlg)
    } else if has_pq(caps) {
        Some(Transfer::Pq)
    } else {
        None
    }
}

/// Both variants find the same transfer function, unless caps name both.
pub proof fn law_variants_agree(caps: Seq<char>)
    requires
        !(super::names_pq(caps) && super::names_hlg(caps)),
    ensures
        detected(caps) == super::detected(caps),
{
}

#[derive(Debug, Clone, Copy, PartialEq, Eq, Structural)]
pub struct Settings {
    /// Map even what is not marked as HDR.
    pub force_active: bool,
    /// The transfer function of what is not marked.
    pub transfer: Transfer,
}

impl Default for Settings {
    fn default() -> (settings: Settings)
        ensures
            settings == (Settings { force_active: false, transfer: Transfer::Pq }),
    {
        Settings { force_active: false, transfer: Transfer::Pq }
    }
}

/// The number of a transfer function.
pub open spec fn number_of(transfer: Transfer) -> i32 {
    match transfer {
        Transfer::Pq => 0,
        Transfer::Hlg => 1,
    }
}

/// The transfer function for a number: 1 for HLG, and PQ otherwise.
pub fn transfer_from_number(number: i32) -> (transfer: Transfer)
    ensures
        number_of(transfer) == number || number != 0 && number != 1 && number_of(transfer) == 0,
        transfer == if number == 1 {
            Transfer::Hlg
        } else {
            Transfer::Pq
        },
{
    if number == 1 {
        Transfer::Hlg
    } else {
        Transfer::Pq
    }
}

/// The number of a transfer function.
pub fn transfer_number(transfer: Transfer) -> (number: i32)
    ensures
        number == number_of(transfer),
        number == match transfer {
            Transfer::Pq => 0i32,
            Transfer::Hlg => 1i32,
        },
{
    match transfer {
        Transfer::Pq => 0,
        Transfer::Hlg => 1,
    }
}

/// The element, with what is set and what the shader is told.
#[derive(Debug, Clone, Copy, PartialEq, Eq, Structural)]
pub struct RsTonemapGL {
    pub settings: Settings,
    pub active: bool,
    pub transfer: Transfer,
}

impl Default for RsTonemapGL {
    fn default() -> (element: RsTonemapGL)
        ensures
            element == (RsTonemapGL {
                settings: Settings { force_active: false, transfer: Transfer::Pq },
                active: false,
                transfer: Transfer::Pq,
            }),
    {
        RsTonemapGL { settings: Settings::default(), active: false, transfer: Transfer::Pq }
    }
}

impl RsTonemapGL {
    /// Sets the element up for caps, given as text: mapping is active for HDR, or where it is
    /// forced.
    pub fn gl_set_caps(&mut self, caps: &str)
        ensures
            final(self).settings == old(self).settings,
            super::is_hdr(caps@) || old(self).settings.force_active <==> final(self).active,
            !super::is_hdr(caps@) ==> final(self).transfer == old(self).settings.transfer,
            final(self).active == (detected(caps@) is Some || old(self).settings.force_active),
            final(self).transfer == match detected(caps@) {
                Some(transfer) => transfer,
                None => old(self).settings.transfer,
            },
    {
        let found = detect_hdr_transfer(caps);
        self.active = found.is_some() || self.settings.force_active;
        self.transfer = match found {
            Some(transfer) => transfer,
            None => self.settings.transfer,
        };
    }
}

/// Texts that name HLG anywhere are HLG here, those that name PQ alone are PQ, and without either
/// name there is no transfer function.
pub proof fn law_names_decide(before: Seq<char>, behind: Seq<char>)
    ensures
        detected(before + "bt2100-hlg"@ + behind) == Some(Transfer::Hlg),
        detected(before + "arib-std-b67"@ + behind) == Some(Transfer::Hlg),
        !super::names_hlg(before + "bt2100-pq"@ + behind) ==> detected(
            before + "bt2100-pq"@ + behind,
        ) == Some(Transfer::Pq),
        !super::names_hlg(before + "smpte-st-2084"@ + behind) ==> detected(
            before + "smpte-st-2084"@ + behind,
        ) == Some(Transfer::Pq),
        (detected(before) is Some) == super::is_hdr(before),
{
    crate::text::law_parts_stand_between(before, "bt2100-pq"@, behind);
    crate::text::law_parts_stand_between(before, "smpte-st-2084"@, behind);
    crate::text::law_parts_stand_between(before, "bt2100-hlg"@, behind);
    crate::text::law_parts_stand_between(before, "arib-std-b67"@, behind);
}

} // verus!
