//! Station registry: the record of a disposal point, its creation, and the
//! one statistic the ledger keeps for it.

use vstd::prelude::*;
use vstd::utf8::encode_utf8;
use crate::error::ErrorCode;
use crate::pubkey::Pubkey;

verus! {

/// Storage reserved for a station name, in bytes.
pub const MAX_NAME_BYTES: usize = 100;

/// Storage reserved for a station description, in bytes.
pub const MAX_DESCRIPTION_BYTES: usize = 200;

/// A registered disposal point.
///
/// Latitude and longitude are carried as the bit patterns of 64-bit IEEE 754
/// numbers; the ledger stores them and never computes with them.
#[derive(Clone, Debug, PartialEq, Eq)]
pub struct RecyclingStation {
    /// The identity that created the station.
    pub owner: Pubkey,
    pub name: String,
    pub description: String,
    pub latitude: u64,
    pub longitude: u64,
    /// Successful disposals so far. It never falls, and rises by one per
    /// disposal.
    pub recycled_count: u64,
    pub is_active: bool,
    /// When the station was created, in seconds.
    pub created_at: i64,
}

/// The storage slot of a station: the identity it is stored under, and the
/// station once it has been created there.
#[derive(Clone, Debug, PartialEq, Eq)]
pub struct StationAccount {
    pub key: Pubkey,
    pub data: Option<RecyclingStation>,
}

/// What `initialize_station` works on: the slot to create the station in, and
/// the identity that will own it.
#[derive(Clone, Debug, PartialEq, Eq)]
pub struct InitializeStation {
    pub station: StationAccount,
    pub owner: Pubkey,
}

/// Length of a text in bytes, as stored.
pub open spec fn byte_len(text: &String) -> nat {
    encode_utf8(text@).len()
}

impl RecyclingStation {
    /// Name and description fit the storage reserved for them.
    pub open spec fn wf(&self) -> bool {
        &&& byte_len(&self.name) <= MAX_NAME_BYTES
        &&& byte_len(&self.description) <= MAX_DESCRIPTION_BYTES
    }

    /// The station after one more disposal: the count is one higher and
    /// nothing else differs.
    pub open spec fn counted(self) -> RecyclingStation {
        RecyclingStation {
            owner: self.owner,
            name: self.name,
            description: self.description,
            latitude: self.latitude,
            longitude: self.longitude,
            recycled_count: (self.recycled_count + 1) as u64,
            is_active: self.is_active,
            created_at: self.created_at,
        }
    }
}

/// The station that `initialize_station` creates from its arguments.
pub open spec fn new_station(
    owner: Pubkey,
    station_name: String,
    station_description: String,
    latitude: u64,
    longitude: u64,
    now: i64,
) -> RecyclingStation {
    RecyclingStation {
        owner,
        name: station_name,
        description: station_description,
        latitude,
        longitude,
        recycled_count: 0,
        is_active: true,
        created_at: now,
    }
}

/// Why `initialize_station` refuses its arguments, if it does. The name is
/// looked at first, then the description, then the slot.
pub open spec fn initialize_error(
    ctx: InitializeStation,
    station_name: String,
    station_description: String,
) -> Option<ErrorCode> {
    if byte_len(&station_name) > MAX_NAME_BYTES {
        Some(ErrorCode::InvalidName)
    } else if byte_len(&station_description) > MAX_DESCRIPTION_BYTES {
        Some(ErrorCode::InvalidDescription)
    } else if ctx.station.data is Some {
        Some(ErrorCode::AlreadyExists)
    } else {
        None
    }
}

/// Creates a station in the slot of `ctx`, owned by `ctx.owner`, and returns
/// the identity it is stored under.
///
/// On success the slot holds the new station, with a count of zero, active,
/// created at `now`. On failure nothing changes.
pub fn initialize_station(
    ctx: &mut InitializeStation,
    station_name: String,
    station_description: String,
    latitude: u64,
    longitude: u64,
    now: i64,
) -> (res: Result<Pubkey, ErrorCode>)
    ensures
        match initialize_error(*old(ctx), station_name, station_description) {
            Some(e) => res == Err::<Pubkey, ErrorCode>(e) && *final(ctx) == *old(ctx),
            None => {
                &&& res == Ok::<Pubkey, ErrorCode>(old(ctx).station.key)
                &&& final(ctx).owner == old(ctx).owner
                &&& final(ctx).station.key == old(ctx).station.key
                &&& final(ctx).station.data == Some(
                    new_station(
                        old(ctx).owner,
                        station_name,
                        station_description,
                        latitude,
                        longitude,
                        now,
                    ),
                )
                &&& final(ctx).station.data->0.wf()
            },
        },
{
    if station_name.as_str().as_bytes().len() > MAX_NAME_BYTES {
        return Err(ErrorCode::InvalidName);
    }
    if station_description.as_str().as_bytes().len() > MAX_DESCRIPTION_BYTES {
        return Err(ErrorCode::InvalidDescription);
    }
    if ctx.station.data.is_some() {
        return Err(ErrorCode::AlreadyExists);
    }
    ctx.station.data = Some(
        RecyclingStation {
            owner: ctx.owner,
            name: station_name,
            description: station_description,
            latitude,
            longitude,
            recycled_count: 0,
            is_active: true,
            created_at: now,
        },
    );
    Ok(ctx.station.key)
}

/// Counts one disposal at `station`. Only a successful disposal calls this.
///
/// The count rises by exactly one and no other field changes; a count that
/// cannot rise is reported and left as it is.
pub(crate) fn record_disposal(station: &mut RecyclingStation) -> (res: Result<(), ErrorCode>)
    ensures
        old(station).recycled_count < u64::MAX ==> res is Ok && *final(station) == old(
            station,
        ).counted(),
        old(station).recycled_count == u64::MAX ==> res == Err::<(), ErrorCode>(
            ErrorCode::Overflow,
        ) && *final(station) == *old(station),
{
    if station.recycled_count == u64::MAX {
        return Err(ErrorCode::Overflow);
    }
    station.recycled_count = station.recycled_count + 1;
    Ok(())
}

} // verus!
