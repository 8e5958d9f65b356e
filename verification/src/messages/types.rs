//! Common data types shared by several message decoders.
use vstd::prelude::*;

verus! {

/// Electronic Position Fixing Device type: the kind of device that
/// produced the reported position.
#[derive(Debug, PartialEq, Eq, Copy, Clone)]
pub enum EpfdType {
    Gps,
    Glonass,
    CombinedGpsAndGlonass,
    LoranC,
    Chayka,
    IntegratedNavigationSystem,
    Surveyed,
    Galileo,
    Unknown(u8),
}

/// The EPFD type named by a raw 4-bit wire value: 0 and 15 mean "not
/// available".
pub open spec fn spec_epfd(v: nat) -> Option<EpfdType> {
    if v == 0 || v == 15 {
        None
    } else if v == 1 {
        Some(EpfdType::Gps)
    } else if v == 2 {
        Some(EpfdType::Glonass)
    } else if v == 3 {
        Some(EpfdType::CombinedGpsAndGlonass)
    } else if v == 4 {
        Some(EpfdType::LoranC)
    } else if v == 5 {
        Some(EpfdType::Chayka)
    } else if v == 6 {
        Some(EpfdType::IntegratedNavigationSystem)
    } else if v == 7 {
        Some(EpfdType::Surveyed)
    } else if v == 8 {
        Some(EpfdType::Galileo)
    } else {
        Some(EpfdType::Unknown(v as u8))
    }
}

impl EpfdType {
    /// Decodes the 4-bit EPFD field; the sentinels 0 and 15 decode to
    /// `None`.
    pub fn parse(data: u8) -> (r: Option<Self>)
        ensures
            r == spec_epfd(data as nat),
    {
        match data {
            0 => None,
            1 => Some(Self::Gps),
            2 => Some(Self::Glonass),
            3 => Some(Self::CombinedGpsAndGlonass),
            4 => Some(Self::LoranC),
            5 => Some(Self::Chayka),
            6 => Some(Self::IntegratedNavigationSystem),
            7 => Some(Self::Surveyed),
            8 => Some(Self::Galileo),
            15 => None,
            _ => Some(Self::Unknown(data)),
        }
    }
}

/// Type of ship and cargo, an 8-bit wire field.
#[derive(Debug, PartialEq, Eq, Copy, Clone)]
pub enum ShipType {
    Reserved(u8),
    WingInGround,
    WingInGroundHazardousCategoryA,
    WingInGroundHazardousCategoryB,
    WingInGroundHazardousCategoryC,
    WingInGroundHazardousCategoryD,
    WingInGroundReserved(u8),
    Fishing,
    Towing,
    TowingLarge,
    Dredging,
    DivingOps,
    MilitaryOps,
    Sailing,
    PleasureCraft,
    HighSpeedCraft,
    HighSpeedCraftHazardousCategoryA,
    HighSpeedCraftHazardousCategoryB,
    HighSpeedCraftHazardousCategoryC,
    HighSpeedCraftHazardousCategoryD,
    HighSpeedCraftReserved(u8),
    HighSpeedCraftNoAdditionalInformation,
    PilotVessel,
    SearchAndRescueVessel,
    Tug,
    PortTender,
    AntiPollutionEquipment,
    LawEnforcement,
    SpareLocalVessel(u8),
    MedicalTransport,
    NoncombatantShip,
    Passenger,
    PassengerHazardousCategoryA,
    PassengerHazardousCategoryB,
    PassengerHazardousCategoryC,
    PassengerHazardousCategoryD,
    PassengerReserved(u8),
    PassengerNoAdditionalInformation,
    Cargo,
    CargoHazardousCategoryA,
    CargoHazardousCategoryB,
    CargoHazardousCategoryC,
    CargoHazardousCategoryD,
    CargoReserved(u8),
    CargoNoAdditionalInformation,
    Tanker,
    TankerHazardousCategoryA,
    TankerHazardousCategoryB,
    TankerHazardousCategoryC,
    TankerHazardousCategoryD,
    TankerReserved(u8),
    TankerNoAdditionalInformation,
    Other,
    OtherHazardousCategoryA,
    OtherHazardousCategoryB,
    OtherHazardousCategoryC,
    OtherHazardousCategoryD,
    OtherReserved(u8),
    OtherNoAdditionalInformation,
}

/// The ship type named by a raw 8-bit wire value: 0 and values of 100 and
/// above mean "not available".
pub open spec fn spec_ship_type(v: nat) -> Option<ShipType> {
    if v == 0 {
        None
    } else if 1 <= v <= 19 {
        Some(ShipType::Reserved(v as u8))
    } else if v == 20 {
        Some(ShipType::WingInGround)
    } else if v == 21 {
        Some(ShipType::WingInGroundHazardousCategoryA)
    } else if v == 22 {
        Some(ShipType::WingInGroundHazardousCategoryB)
    } else if v == 23 {
        Some(ShipType::WingInGroundHazardousCategoryC)
    } else if v == 24 {
        Some(ShipType::WingInGroundHazardousCategoryD)
    } else if 25 <= v <= 29 {
        Some(ShipType::WingInGroundReserved(v as u8))
    } else if v == 30 {
        Some(ShipType::Fishing)
    } else if v == 31 {
        Some(ShipType::Towing)
    } else if v == 32 {
        Some(ShipType::TowingLarge)
    } else if v == 33 {
        Some(ShipType::Dredging)
    } else if v == 34 {
        Some(ShipType::DivingOps)
    } else if v == 35 {
        Some(ShipType::MilitaryOps)
    } else if v == 36 {
        Some(ShipType::Sailing)
    } else if v == 37 {
        Some(ShipType::PleasureCraft)
    } else if 38 <= v <= 39 {
        Some(ShipType::Reserved(v as u8))
    } else if v == 40 {
        Some(ShipType::HighSpeedCraft)
    } else if v == 41 {
        Some(ShipType::HighSpeedCraftHazardousCategoryA)
    } else if v == 42 {
        Some(ShipType::HighSpeedCraftHazardousCategoryB)
    } else if v == 43 {
        Some(ShipType::HighSpeedCraftHazardousCategoryC)
    } else if v == 44 {
        Some(ShipType::HighSpeedCraftHazardousCategoryD)
    } else if 45 <= v <= 48 {
        Some(ShipType::HighSpeedCraftReserved(v as u8))
    } else if v == 49 {
        Some(ShipType::HighSpeedCraftNoAdditionalInformation)
    } else if v == 50 {
        Some(ShipType::PilotVessel)
    } else if v == 51 {
        Some(ShipType::SearchAndRescueVessel)
    } else if v == 52 {
        Some(ShipType::Tug)
    } else if v == 53 {
        Some(ShipType::PortTender)
    } else if v == 54 {
        Some(ShipType::AntiPollutionEquipment)
    } else if v == 55 {
        Some(ShipType::LawEnforcement)
    } else if 56 <= v <= 57 {
        Some(ShipType::SpareLocalVessel(v as u8))
    } else if v == 58 {
        Some(ShipType::MedicalTransport)
    } else if v == 59 {
        Some(ShipType::NoncombatantShip)
    } else if v == 60 {
        Some(ShipType::Passenger)
    } else if v == 61 {
        Some(ShipType::PassengerHazardousCategoryA)
    } else if v == 62 {
        Some(ShipType::PassengerHazardousCategoryB)
    } else if v == 63 {
        Some(ShipType::PassengerHazardousCategoryC)
    } else if v == 64 {
        Some(ShipType::PassengerHazardousCategoryD)
    } else if 65 <= v <= 68 {
        Some(ShipType::PassengerReserved(v as u8))
    } else if v == 69 {
        Some(ShipType::PassengerNoAdditionalInformation)
    } else if v == 70 {
        Some(ShipType::Cargo)
    } else if v == 71 {
        Some(ShipType::CargoHazardousCategoryA)
    } else if v == 72 {
        Some(ShipType::CargoHazardousCategoryB)
    } else if v == 73 {
        Some(ShipType::CargoHazardousCategoryC)
    } else if v == 74 {
        Some(ShipType::CargoHazardousCategoryD)
    } else if 75 <= v <= 78 {
        Some(ShipType::CargoReserved(v as u8))
    } else if v == 79 {
        Some(ShipType::CargoNoAdditionalInformation)
    } else if v == 80 {
        Some(ShipType::Tanker)
    } else if v == 81 {
        Some(ShipType::TankerHazardousCategoryA)
    } else if v == 82 {
        Some(ShipType::TankerHazardousCategoryB)
    } else if v == 83 {
        Some(ShipType::TankerHazardousCategoryC)
    } else if v == 84 {
        Some(ShipType::TankerHazardousCategoryD)
    } else if 85 <= v <= 88 {
        Some(ShipType::TankerReserved(v as u8))
    } else if v == 89 {
        Some(ShipType::TankerNoAdditionalInformation)
    } else if v == 90 {
        Some(ShipType::Other)
    } else if v == 91 {
        Some(ShipType::OtherHazardousCategoryA)
    } else if v == 92 {
        Some(ShipType::OtherHazardousCategoryB)
    } else if v == 93 {
        Some(ShipType::OtherHazardousCategoryC)
    } else if v == 94 {
        Some(ShipType::OtherHazardousCategoryD)
    } else if 95 <= v <= 98 {
        Some(ShipType::OtherReserved(v as u8))
    } else if v == 99 {
        Some(ShipType::OtherNoAdditionalInformation)
    } else {
        None
    }
}

impl ShipType {
    /// Decodes the 8-bit ship-type field; the sentinel 0 and values of
    /// 100 and above decode to `None`.
    pub fn parse(data: u8) -> (r: Option<Self>)
        ensures
            r == spec_ship_type(data as nat),
    {
        match data {
            0 => None,
            1..=19 => Some(Self::Reserved(data)),
            20 => Some(Self::WingInGround),
            21 => Some(Self::WingInGroundHazardousCategoryA),
            22 => Some(Self::WingInGroundHazardousCategoryB),
            23 => Some(Self::WingInGroundHazardousCategoryC),
            24 => Some(Self::WingInGroundHazardousCategoryD),
            25..=29 => Some(Self::WingInGroundReserved(data)),
            30 => Some(Self::Fishing),
            31 => Some(Self::Towing),
            32 => Some(Self::TowingLarge),
            33 => Some(Self::Dredging),
            34 => Some(Self::DivingOps),
            35 => Some(Self::MilitaryOps),
            36 => Some(Self::Sailing),
            37 => Some(Self::PleasureCraft),
            38..=39 => Some(Self::Reserved(data)),
            40 => Some(Self::HighSpeedCraft),
            41 => Some(Self::HighSpeedCraftHazardousCategoryA),
            42 => Some(Self::HighSpeedCraftHazardousCategoryB),
            43 => Some(Self::HighSpeedCraftHazardousCategoryC),
            44 => Some(Self::HighSpeedCraftHazardousCategoryD),
            45..=48 => Some(Self::HighSpeedCraftReserved(data)),
            49 => Some(Self::HighSpeedCraftNoAdditionalInformation),
            50 => Some(Self::PilotVessel),
            51 => Some(Self::SearchAndRescueVessel),
            52 => Some(Self::Tug),
            53 => Some(Self::PortTender),
            54 => Some(Self::AntiPollutionEquipment),
            55 => Some(Self::LawEnforcement),
            56..=57 => Some(Self::SpareLocalVessel(data)),
            58 => Some(Self::MedicalTransport),
            59 => Some(Self::NoncombatantShip),
            60 => Some(Self::Passenger),
            61 => Some(Self::PassengerHazardousCategoryA),
            62 => Some(Self::PassengerHazardousCategoryB),
            63 => Some(Self::PassengerHazardousCategoryC),
            64 => Some(Self::PassengerHazardousCategoryD),
            65..=68 => Some(Self::PassengerReserved(data)),
            69 => Some(Self::PassengerNoAdditionalInformation),
            70 => Some(Self::Cargo),
            71 => Some(Self::CargoHazardousCategoryA),
            72 => Some(Self::CargoHazardousCategoryB),
            73 => Some(Self::CargoHazardousCategoryC),
            74 => Some(Self::CargoHazardousCategoryD),
            75..=78 => Some(Self::CargoReserved(data)),
            79 => Some(Self::CargoNoAdditionalInformation),
            80 => Some(Self::Tanker),
            81 => Some(Self::TankerHazardousCategoryA),
            82 => Some(Self::TankerHazardousCategoryB),
            83 => Some(Self::TankerHazardousCategoryC),
            84 => Some(Self::TankerHazardousCategoryD),
            85..=88 => Some(Self::TankerReserved(data)),
            89 => Some(Self::TankerNoAdditionalInformation),
            90 => Some(Self::Other),
            91 => Some(Self::OtherHazardousCategoryA),
            92 => Some(Self::OtherHazardousCategoryB),
            93 => Some(Self::OtherHazardousCategoryC),
            94 => Some(Self::OtherHazardousCategoryD),
            95..=98 => Some(Self::OtherReserved(data)),
            99 => Some(Self::OtherNoAdditionalInformation),
            _ => None,
        }
    }
}

/// Data terminal equipment readiness.
#[derive(Debug, PartialEq, Eq, Copy, Clone)]
pub enum Dte {
    Ready,
    NotReady,
}

/// The DTE state named by one wire bit: 0 is ready, 1 is not.
pub open spec fn spec_dte(v: nat) -> Dte {
    if v == 0 {
        Dte::Ready
    } else {
        Dte::NotReady
    }
}

impl Dte {
    /// Decodes the single DTE bit.
    pub fn parse(data: u8) -> (r: Self)
        requires
            data <= 1,
        ensures
            r == spec_dte(data as nat),
    {
        if data == 0 {
            Self::Ready
        } else {
            Self::NotReady
        }
    }
}

impl Default for Dte {
    /// A sender that omits the DTE bit counts as not ready.
    fn default() -> (r: Self)
        ensures
            r == Dte::NotReady,
    {
        Dte::NotReady
    }
}

/// Station operating mode: autonomous and continuous, or assigned.
#[derive(Debug, PartialEq, Eq, Copy, Clone)]
pub enum AssignedMode {
    Autonomous,
    Assigned,
}

/// The mode named by one wire bit: 0 is autonomous, 1 is assigned.
pub open spec fn spec_assigned_mode(v: nat) -> AssignedMode {
    if v == 0 {
        AssignedMode::Autonomous
    } else {
        AssignedMode::Assigned
    }
}

impl AssignedMode {
    /// Decodes the single assigned-mode bit.
    pub fn parse(val: u8) -> (r: Self)
        requires
            val <= 1,
        ensures
            r == spec_assigned_mode(val as nat),
    {
        if val == 0 {
            Self::Autonomous
        } else {
            Self::Assigned
        }
    }
}

/// The wire code a ship type stands for: the inverse of `spec_ship_type`
/// on every value in the decodable range.
pub open spec fn spec_ship_code(t: ShipType) -> u8 {
    match t {
        ShipType::Reserved(v) => v,
        ShipType::WingInGroundReserved(v) => v,
        ShipType::SpareLocalVessel(v) => v,
        ShipType::PassengerReserved(v) => v,
        ShipType::CargoReserved(v) => v,
        ShipType::TankerReserved(v) => v,
        ShipType::OtherReserved(v) => v,
        ShipType::HighSpeedCraftReserved(v) => v,
        ShipType::WingInGround => 20,
        ShipType::WingInGroundHazardousCategoryA => 21,
        ShipType::WingInGroundHazardousCategoryB => 22,
        ShipType::WingInGroundHazardousCategoryC => 23,
        ShipType::WingInGroundHazardousCategoryD => 24,
        ShipType::Fishing => 30,
        ShipType::Towing => 31,
        ShipType::TowingLarge => 32,
        ShipType::Dredging => 33,
        ShipType::DivingOps => 34,
        ShipType::MilitaryOps => 35,
        ShipType::Sailing => 36,
        ShipType::PleasureCraft => 37,
        ShipType::HighSpeedCraft => 40,
        ShipType::HighSpeedCraftHazardousCategoryA => 41,
        ShipType::HighSpeedCraftHazardousCategoryB => 42,
        ShipType::HighSpeedCraftHazardousCategoryC => 43,
        ShipType::HighSpeedCraftHazardousCategoryD => 44,
        ShipType::HighSpeedCraftNoAdditionalInformation => 49,
        ShipType::PilotVessel => 50,
        ShipType::SearchAndRescueVessel => 51,
        ShipType::Tug => 52,
        ShipType::PortTender => 53,
        ShipType::AntiPollutionEquipment => 54,
        ShipType::LawEnforcement => 55,
        ShipType::MedicalTransport => 58,
        ShipType::NoncombatantShip => 59,
        ShipType::Passenger => 60,
        ShipType::PassengerHazardousCategoryA => 61,
        ShipType::PassengerHazardousCategoryB => 62,
        ShipType::PassengerHazardousCategoryC => 63,
        ShipType::PassengerHazardousCategoryD => 64,
        ShipType::PassengerNoAdditionalInformation => 69,
        ShipType::Cargo => 70,
        ShipType::CargoHazardousCategoryA => 71,
        ShipType::CargoHazardousCategoryB => 72,
        ShipType::CargoHazardousCategoryC => 73,
        ShipType::CargoHazardousCategoryD => 74,
        ShipType::CargoNoAdditionalInformation => 79,
        ShipType::Tanker => 80,
        ShipType::TankerHazardousCategoryA => 81,
        ShipType::TankerHazardousCategoryB => 82,
        ShipType::TankerHazardousCategoryC => 83,
        ShipType::TankerHazardousCategoryD => 84,
        ShipType::TankerNoAdditionalInformation => 89,
        ShipType::Other => 90,
        ShipType::OtherHazardousCategoryA => 91,
        ShipType::OtherHazardousCategoryB => 92,
        ShipType::OtherHazardousCategoryC => 93,
        ShipType::OtherHazardousCategoryD => 94,
        ShipType::OtherNoAdditionalInformation => 99,
    }
}

impl vstd::std_specs::convert::FromSpecImpl<ShipType> for u8 {
    open spec fn obeys_from_spec() -> bool {
        true
    }

    open spec fn from_spec(v: ShipType) -> u8 {
        spec_ship_code(v)
    }
}

impl From<ShipType> for u8 {
    /// The 8-bit wire code of a ship type.
    fn from(value: ShipType) -> (r: u8) {
        match value {
            ShipType::Reserved(v) => v,
            ShipType::WingInGroundReserved(v) => v,
            ShipType::SpareLocalVessel(v) => v,
            ShipType::PassengerReserved(v) => v,
            ShipType::CargoReserved(v) => v,
            ShipType::TankerReserved(v) => v,
            ShipType::OtherReserved(v) => v,
            ShipType::HighSpeedCraftReserved(v) => v,
            ShipType::WingInGround => 20,
            ShipType::WingInGroundHazardousCategoryA => 21,
            ShipType::WingInGroundHazardousCategoryB => 22,
            ShipType::WingInGroundHazardousCategoryC => 23,
            ShipType::WingInGroundHazardousCategoryD => 24,
            ShipType::Fishing => 30,
            ShipType::Towing => 31,
            ShipType::TowingLarge => 32,
            ShipType::Dredging => 33,
            ShipType::DivingOps => 34,
            ShipType::MilitaryOps => 35,
            ShipType::Sailing => 36,
            ShipType::PleasureCraft => 37,
            ShipType::HighSpeedCraft => 40,
            ShipType::HighSpeedCraftHazardousCategoryA => 41,
            ShipType::HighSpeedCraftHazardousCategoryB => 42,
            ShipType::HighSpeedCraftHazardousCategoryC => 43,
            ShipType::HighSpeedCraftHazardousCategoryD => 44,
            ShipType::HighSpeedCraftNoAdditionalInformation => 49,
            ShipType::PilotVessel => 50,
            ShipType::SearchAndRescueVessel => 51,
            ShipType::Tug => 52,
            ShipType::PortTender => 53,
            ShipType::AntiPollutionEquipment => 54,
            ShipType::LawEnforcement => 55,
            ShipType::MedicalTransport => 58,
            ShipType::NoncombatantShip => 59,
            ShipType::Passenger => 60,
            ShipType::PassengerHazardousCategoryA => 61,
            ShipType::PassengerHazardousCategoryB => 62,
            ShipType::PassengerHazardousCategoryC => 63,
            ShipType::PassengerHazardousCategoryD => 64,
            ShipType::PassengerNoAdditionalInformation => 69,
            ShipType::Cargo => 70,
            ShipType::CargoHazardousCategoryA => 71,
            ShipType::CargoHazardousCategoryB => 72,
            ShipType::CargoHazardousCategoryC => 73,
            ShipType::CargoHazardousCategoryD => 74,
            ShipType::CargoNoAdditionalInformation => 79,
            ShipType::Tanker => 80,
            ShipType::TankerHazardousCategoryA => 81,
            ShipType::TankerHazardousCategoryB => 82,
            ShipType::TankerHazardousCategoryC => 83,
            ShipType::TankerHazardousCategoryD => 84,
            ShipType::TankerNoAdditionalInformation => 89,
            ShipType::Other => 90,
            ShipType::OtherHazardousCategoryA => 91,
            ShipType::OtherHazardousCategoryB => 92,
            ShipType::OtherHazardousCategoryC => 93,
            ShipType::OtherHazardousCategoryD => 94,
            ShipType::OtherNoAdditionalInformation => 99,
        }
    }
}

/// Ship-type round trip: every wire value that decodes to a ship type is
/// recovered exactly by the type's wire code.
pub proof fn lemma_ship_type_round_trip(v: nat)
    requires
        1 <= v <= 99,
    ensures
        match spec_ship_type(v) {
            Some(t) => spec_ship_code(t) == v,
            None => false,
        },
{
}

} // verus!
