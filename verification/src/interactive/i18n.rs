//! The category names of the modular interface.
use vstd::prelude::*;

verus! {

pub const CAT_ANALYSIS: &'static str = " Analyse & Diagnostic ";

pub const CAT_CONFIDENTIALITY: &'static str = " Confidentialité & Télémétrie ";

pub const CAT_PERFORMANCE: &'static str = " Performance ";

pub const CAT_SECURITY: &'static str = " Sécurité ";

pub const CAT_SYSTEM: &'static str = " Système & Nettoyage ";

pub const CAT_SERVICES: &'static str = " Services ";

pub const CAT_NETWORK: &'static str = " Réseau ";

pub const CAT_SYNC: &'static str = " Synchronisation ";

} // verus!
