//! Cloud regions, concrete instance types, and the symbolic instance classes
//! that slots are configured with.

use vstd::prelude::*;
use crate::error::PSMError;
use crate::text::{eq_ignore_case, same_text, text_eq_ci};

verus! {

/// A cloud region.
#[derive(Debug, Clone, Copy, PartialEq, Eq, Structural)]
pub enum Region {
    Guangzhou,
    Shanghai,
    Nanjing,
    Beijing,
    Chengdu,
    Chongqing,
    Hongkong,
}

impl Region {
    /// The provider's code for the region.
    pub open spec fn spec_code(self) -> Seq<char> {
        match self {
            Region::Guangzhou => "ap-guangzhou"@,
            Region::Shanghai => "ap-shanghai"@,
            Region::Nanjing => "ap-nanjing"@,
            Region::Beijing => "ap-beijing"@,
            Region::Chengdu => "ap-chengdu"@,
            Region::Chongqing => "ap-chongqing"@,
            Region::Hongkong => "ap-hongkong"@,
        }
    }

    /// The provider's code for the region (`ap-guangzhou`, ...).
    pub fn code(&self) -> (r: &'static str)
        ensures
            r@ == self.spec_code(),
    {
        match self {
            Region::Guangzhou => "ap-guangzhou",
            Region::Shanghai => "ap-shanghai",
            Region::Nanjing => "ap-nanjing",
            Region::Beijing => "ap-beijing",
            Region::Chengdu => "ap-chengdu",
            Region::Chongqing => "ap-chongqing",
            Region::Hongkong => "ap-hongkong",
        }
    }

    /// The region whose code is `code`, if any.
    pub fn from_code(code: &str) -> (r: Option<Region>)
        ensures
            match r {
                Some(x) => x.spec_code() == code@,
                None => forall|x: Region| x.spec_code() != code@,
            },
    {
        if same_text(code, "ap-guangzhou") {
            Some(Region::Guangzhou)
        } else if same_text(code, "ap-shanghai") {
            Some(Region::Shanghai)
        } else if same_text(code, "ap-nanjing") {
            Some(Region::Nanjing)
        } else if same_text(code, "ap-beijing") {
            Some(Region::Beijing)
        } else if same_text(code, "ap-chengdu") {
            Some(Region::Chengdu)
        } else if same_text(code, "ap-chongqing") {
            Some(Region::Chongqing)
        } else if same_text(code, "ap-hongkong") {
            Some(Region::Hongkong)
        } else {
            proof {
                assert forall|x: Region| x.spec_code() != code@ by {
                    match x {
                        Region::Guangzhou => {},
                        Region::Shanghai => {},
                        Region::Nanjing => {},
                        Region::Beijing => {},
                        Region::Chengdu => {},
                        Region::Chongqing => {},
                        Region::Hongkong => {},
                    }
                }
            }
            None
        }
    }
}

/// The regions searched for the cheapest instance, in search order.
pub open spec fn spec_candidate_regions() -> Seq<Region> {
    seq![Region::Guangzhou, Region::Nanjing, Region::Shanghai]
}

/// The regions searched for the cheapest instance, in search order.
pub fn candidate_regions() -> (r: Vec<Region>)
    ensures
        r@ == spec_candidate_regions(),
{
    let r = vec![Region::Guangzhou, Region::Nanjing, Region::Shanghai];
    assert(r@ =~= spec_candidate_regions());
    r
}

/// A concrete cloud instance type.
#[derive(Debug, Clone, Copy, PartialEq, Eq, Structural)]
pub enum InstanceType {
    SA2Medium2,
    SA2Medium8,
    SA2Large8,
    SA3Large8,
    MA3Medium16,
    SA2Large16,
    SA3Large16,
    MA3Large32,
    MA2Large32,
    SA22Xlarge32,
}

impl InstanceType {
    /// The provider's name for the type.
    pub open spec fn spec_code(self) -> Seq<char> {
        match self {
            InstanceType::SA2Medium2 => "SA2.MEDIUM2"@,
            InstanceType::SA2Medium8 => "SA2.MEDIUM8"@,
            InstanceType::SA2Large8 => "SA2.LARGE8"@,
            InstanceType::SA3Large8 => "SA3.LARGE8"@,
            InstanceType::MA3Medium16 => "MA3.MEDIUM16"@,
            InstanceType::SA2Large16 => "SA2.LARGE16"@,
            InstanceType::SA3Large16 => "SA3.LARGE16"@,
            InstanceType::MA3Large32 => "MA3.LARGE32"@,
            InstanceType::MA2Large32 => "MA2.LARGE32"@,
            InstanceType::SA22Xlarge32 => "SA2.2XLARGE32"@,
        }
    }

    /// The provider's name for the type (`SA2.MEDIUM2`, ...).
    pub fn code(&self) -> (r: &'static str)
        ensures
            r@ == self.spec_code(),
    {
        match self {
            InstanceType::SA2Medium2 => "SA2.MEDIUM2",
            InstanceType::SA2Medium8 => "SA2.MEDIUM8",
            InstanceType::SA2Large8 => "SA2.LARGE8",
            InstanceType::SA3Large8 => "SA3.LARGE8",
            InstanceType::MA3Medium16 => "MA3.MEDIUM16",
            InstanceType::SA2Large16 => "SA2.LARGE16",
            InstanceType::SA3Large16 => "SA3.LARGE16",
            InstanceType::MA3Large32 => "MA3.LARGE32",
            InstanceType::MA2Large32 => "MA2.LARGE32",
            InstanceType::SA22Xlarge32 => "SA2.2XLARGE32",
        }
    }
}

/// A symbolic instance class: vCPUs and memory in GiB.
#[derive(Debug, Clone, Copy, PartialEq, Eq, Structural)]
pub enum ServiceInstanceType {
    T2C2G,
    T2C8G,
    T4C8G,
    T2C16G,
    T4C16G,
    T4C32G,
    T8C32G,
}

impl ServiceInstanceType {
    /// The class's name as configured (lower case: `2c2g`, ...).
    pub open spec fn spec_name(self) -> Seq<char> {
        match self {
            ServiceInstanceType::T2C2G => "2c2g"@,
            ServiceInstanceType::T2C8G => "2c8g"@,
            ServiceInstanceType::T4C8G => "4c8g"@,
            ServiceInstanceType::T2C16G => "2c16g"@,
            ServiceInstanceType::T4C16G => "4c16g"@,
            ServiceInstanceType::T4C32G => "4c32g"@,
            ServiceInstanceType::T8C32G => "8c32g"@,
        }
    }

    /// The class named `value`, ignoring ASCII case; an unknown name is an
    /// `InvalidInstanceType` error.
    pub fn from_name(value: &str) -> (r: Result<ServiceInstanceType, PSMError>)
        ensures
            match r {
                Ok(t) => text_eq_ci(value@, t.spec_name()),
                Err(e) => e == PSMError::InvalidInstanceType && forall|t: ServiceInstanceType|
                    !text_eq_ci(value@, t.spec_name()),
            },
    {
        if eq_ignore_case(value, "2c2g") {
            Ok(ServiceInstanceType::T2C2G)
        } else if eq_ignore_case(value, "2c8g") {
            Ok(ServiceInstanceType::T2C8G)
        } else if eq_ignore_case(value, "4c8g") {
            Ok(ServiceInstanceType::T4C8G)
        } else if eq_ignore_case(value, "2c16g") {
            Ok(ServiceInstanceType::T2C16G)
        } else if eq_ignore_case(value, "4c16g") {
            Ok(ServiceInstanceType::T4C16G)
        } else if eq_ignore_case(value, "4c32g") {
            Ok(ServiceInstanceType::T4C32G)
        } else if eq_ignore_case(value, "8c32g") {
            Ok(ServiceInstanceType::T8C32G)
        } else {
            proof {
                assert forall|t: ServiceInstanceType| !text_eq_ci(value@, t.spec_name()) by {
                    match t {
                        ServiceInstanceType::T2C2G => {},
                        ServiceInstanceType::T2C8G => {},
                        ServiceInstanceType::T4C8G => {},
                        ServiceInstanceType::T2C16G => {},
                        ServiceInstanceType::T4C16G => {},
                        ServiceInstanceType::T4C32G => {},
                        ServiceInstanceType::T8C32G => {},
                    }
                }
            }
            Err(PSMError::InvalidInstanceType)
        }
    }

    /// The concrete instance types acceptable for the class, preferred first.
    pub open spec fn spec_list(self) -> Seq<InstanceType> {
        match self {
            ServiceInstanceType::T2C2G => seq![InstanceType::SA2Medium2],
            ServiceInstanceType::T2C8G => seq![InstanceType::SA2Medium8],
            ServiceInstanceType::T4C8G => seq![InstanceType::SA2Large8, InstanceType::SA3Large8],
            ServiceInstanceType::T2C16G => seq![InstanceType::MA3Medium16],
            ServiceInstanceType::T4C16G => seq![
                InstanceType::SA2Large16,
                InstanceType::SA3Large16,
            ],
            ServiceInstanceType::T4C32G => seq![
                InstanceType::MA3Large32,
                InstanceType::MA2Large32,
            ],
            ServiceInstanceType::T8C32G => seq![InstanceType::SA22Xlarge32],
        }
    }

    /// The concrete instance types acceptable for the class, preferred first.
    pub fn to_list(&self) -> (r: Vec<InstanceType>)
        ensures
            r@ == self.spec_list(),
    {
        let r = match self {
            ServiceInstanceType::T2C2G => vec![InstanceType::SA2Medium2],
            ServiceInstanceType::T2C8G => vec![InstanceType::SA2Medium8],
            ServiceInstanceType::T4C8G => vec![InstanceType::SA2Large8, InstanceType::SA3Large8],
            ServiceInstanceType::T2C16G => vec![InstanceType::MA3Medium16],
            ServiceInstanceType::T4C16G => vec![
                InstanceType::SA2Large16,
                InstanceType::SA3Large16,
            ],
            ServiceInstanceType::T4C32G => vec![
                InstanceType::MA3Large32,
                InstanceType::MA2Large32,
            ],
            ServiceInstanceType::T8C32G => vec![InstanceType::SA22Xlarge32],
        };
        assert(r@ =~= self.spec_list());
        r
    }
}

} // verus!
