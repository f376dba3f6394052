//! The tiers of entitlement and what each of them allows.
//!
//! The feature sets are policy data: one table per tier, and nothing else
//! decides what a license allows.

use crate::records::{LicenseFeatures, LicenseType};
use vstd::prelude::*;

verus! {

/// What the trial tier allows.
pub open spec fn trial_features() -> LicenseFeatures {
    LicenseFeatures {
        max_storage_gb: Some(10u64),
        max_folders: Some(100u32),
        max_files: Some(1000u32),
        max_connections: 2,
        parallel_uploads: 1,
        parallel_downloads: 2,
        encryption_enabled: true,
        private_shares: false,
        password_shares: false,
        auto_resume: false,
        scheduled_sync: false,
        api_access: false,
        priority_support: false,
    }
}

/// What the personal tier allows.
pub open spec fn personal_features() -> LicenseFeatures {
    LicenseFeatures {
        max_storage_gb: Some(1000u64),
        max_folders: Some(10000u32),
        max_files: Some(100000u32),
        max_connections: 10,
        parallel_uploads: 4,
        parallel_downloads: 8,
        encryption_enabled: true,
        private_shares: true,
        password_shares: true,
        auto_resume: true,
        scheduled_sync: true,
        api_access: false,
        priority_support: false,
    }
}

/// What the professional tier allows.
pub open spec fn professional_features() -> LicenseFeatures {
    LicenseFeatures {
        max_storage_gb: Some(10000u64),
        max_folders: None,
        max_files: None,
        max_connections: 30,
        parallel_uploads: 10,
        parallel_downloads: 20,
        encryption_enabled: true,
        private_shares: true,
        password_shares: true,
        auto_resume: true,
        scheduled_sync: true,
        api_access: true,
        priority_support: true,
    }
}

/// What the enterprise tier allows.
pub open spec fn enterprise_features() -> LicenseFeatures {
    LicenseFeatures {
        max_storage_gb: None,
        max_folders: None,
        max_files: None,
        max_connections: 60,
        parallel_uploads: 20,
        parallel_downloads: 40,
        encryption_enabled: true,
        private_shares: true,
        password_shares: true,
        auto_resume: true,
        scheduled_sync: true,
        api_access: true,
        priority_support: true,
    }
}

/// The feature set of each tier. A lifetime license allows what an
/// enterprise license allows.
pub open spec fn features_of(license_type: LicenseType) -> LicenseFeatures {
    match license_type {
        LicenseType::Trial => trial_features(),
        LicenseType::Personal => personal_features(),
        LicenseType::Professional => professional_features(),
        LicenseType::Enterprise => enterprise_features(),
        LicenseType::Lifetime => enterprise_features(),
    }
}

impl LicenseFeatures {
    /// The feature set of the trial tier.
    pub fn trial() -> (features: Self)
        ensures
            features == trial_features(),
    {
        LicenseFeatures {
            max_storage_gb: Some(10),
            max_folders: Some(100),
            max_files: Some(1000),
            max_connections: 2,
            parallel_uploads: 1,
            parallel_downloads: 2,
            encryption_enabled: true,
            private_shares: false,
            password_shares: false,
            auto_resume: false,
            scheduled_sync: false,
            api_access: false,
            priority_support: false,
        }
    }

    /// The feature set of the personal tier: one terabyte of storage.
    pub fn personal() -> (features: Self)
        ensures
            features == personal_features(),
    {
        LicenseFeatures {
            max_storage_gb: Some(1000),
            max_folders: Some(10000),
            max_files: Some(100000),
            max_connections: 10,
            parallel_uploads: 4,
            parallel_downloads: 8,
            encryption_enabled: true,
            private_shares: true,
            password_shares: true,
            auto_resume: true,
            scheduled_sync: true,
            api_access: false,
            priority_support: false,
        }
    }

    /// The feature set of the professional tier: ten terabytes of storage,
    /// folders and files without limit.
    pub fn professional() -> (features: Self)
        ensures
            features == professional_features(),
    {
        LicenseFeatures {
            max_storage_gb: Some(10000),
            max_folders: None,
            max_files: None,
            max_connections: 30,
            parallel_uploads: 10,
            parallel_downloads: 20,
            encryption_enabled: true,
            private_shares: true,
            password_shares: true,
            auto_resume: true,
            scheduled_sync: true,
            api_access: true,
            priority_support: true,
        }
    }

    /// The feature set of the enterprise tier: nothing is limited.
    pub fn enterprise() -> (features: Self)
        ensures
            features == enterprise_features(),
    {
        LicenseFeatures {
            max_storage_gb: None,
            max_folders: None,
            max_files: None,
            max_connections: 60,
            parallel_uploads: 20,
            parallel_downloads: 40,
            encryption_enabled: true,
            private_shares: true,
            password_shares: true,
            auto_resume: true,
            scheduled_sync: true,
            api_access: true,
            priority_support: true,
        }
    }

    /// The feature set of a lifetime license: that of the enterprise tier.
    pub fn lifetime() -> (features: Self)
        ensures
            features == enterprise_features(),
    {
        Self::enterprise()
    }

    /// The feature set that belongs to `license_type`.
    pub fn for_type(license_type: LicenseType) -> (features: Self)
        ensures
            features == features_of(license_type),
    {
        match license_type {
            LicenseType::Trial => Self::trial(),
            LicenseType::Personal => Self::personal(),
            LicenseType::Professional => Self::professional(),
            LicenseType::Enterprise => Self::enterprise(),
            LicenseType::Lifetime => Self::lifetime(),
        }
    }
}

/// The name of a tier as it enters a license id.
pub open spec fn license_type_label(license_type: LicenseType) -> Seq<char> {
    match license_type {
        LicenseType::Trial => "Trial"@,
        LicenseType::Personal => "Personal"@,
        LicenseType::Professional => "Professional"@,
        LicenseType::Enterprise => "Enterprise"@,
        LicenseType::Lifetime => "Lifetime"@,
    }
}

impl LicenseType {
    /// The name of the tier.
    pub fn label(&self) -> (name: &'static str)
        ensures
            name@ == license_type_label(*self),
    {
        match self {
            LicenseType::Trial => "Trial",
            LicenseType::Personal => "Personal",
            LicenseType::Professional => "Professional",
            LicenseType::Enterprise => "Enterprise",
            LicenseType::Lifetime => "Lifetime",
        }
    }
}

} // verus!
