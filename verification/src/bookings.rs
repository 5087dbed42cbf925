//! Bookings and their delivery: schools book sponsored tokens, lecturers
//! register and claim bookings, and either side may back out (a school's
//! cancellations and a lecturer's strikes are counted and slashed).
use vstd::prelude::*;

use crate::education::{
    fits, module_after_booking, module_after_cancellation, module_after_claim,
    module_after_claim_withdrawn, sponsorship_after_booking, sponsorship_after_cancellation, text_len, Booking, Cancellation, CancellationCounter, Config,
    Credential, CredentialKind, Deliverer, Module, Sponsorship, METADATA_MAX_LEN, URI_MAX_LEN,
};
use crate::effects::{mv, make_move, net_into, Effect, Pot};
use crate::errors::EducationError;
use crate::governance::{sat_sub_i64, sat_sub_i64_spec, sat_sub_u64_spec};
use crate::key::Key;
use crate::laws::law_cancellation_settlement;
use crate::pricing::{fee_ceil, fee_ceil_value};

verus! {

/// The booking a school opens.
pub open spec fn opened_booking(
    config: Config,
    sponsorship: Sponsorship,
    school: Key,
    module_id: u64,
    sponsor_id: u64,
    delivery_at: i64,
    metadata: String,
    now: i64,
    bump: u8,
) -> Booking {
    Booking {
        module_id,
        booking_id: config.next_booking_id,
        sponsor_id,
        sponsor: sponsorship.sponsor,
        school,
        lecturer: None,
        payment_asset: sponsorship.payment_asset,
        price_per_token: sponsorship.price_per_token,
        score: None,
        deposit: config.booking_deposit,
        booked_at: now,
        delivery_at,
        claimed_at: None,
        score_at: None,
        settled: false,
        disputer: None,
        proposed_score: None,
        metadata,
        bump,
    }
}

/// What opening a booking moves: the school's deposit into the vault and one
/// token's payment from the sponsor escrow to the booking escrow.
pub open spec fn booking_moves(config: Config, sponsorship: Sponsorship) -> Seq<Effect> {
    seq![
        mv(Pot::SchoolXcav, Pot::Vault, config.booking_deposit),
        mv(Pot::SponsorEscrow, Pot::BookingEscrow, sponsorship.price_per_token),
    ]
}

/// What cancelling a booking moves: its payment back to the sponsor escrow, the
/// school's deposit back to the school (or to the treasury when `slashed`), and
/// the emptied booking escrow closed.
pub open spec fn cancellation_moves(booking: Booking, slashed: bool) -> Seq<Effect> {
    seq![
        mv(Pot::BookingEscrow, Pot::SponsorEscrow, booking.price_per_token),
        mv(Pot::Vault, if slashed { Pot::Treasury } else { Pot::SchoolXcav }, booking.deposit),
        Effect::CloseEscrow { escrow: Pot::BookingEscrow, rent_to: Pot::SchoolWallet },
    ]
}

/// Why a booking would be refused, checked in order.
pub open spec fn book_error(
    config: Config,
    module: Module,
    sponsorship: Sponsorship,
    delivery_at: i64,
    metadata: String,
    now: i64,
) -> Option<EducationError> {
    if text_len(&metadata) > METADATA_MAX_LEN {
        Some(EducationError::InvalidConfig)
    } else if module.school_allocation < 1 {
        Some(EducationError::NotEnoughTokenAvailable)
    } else if sponsorship.amount == 0 {
        Some(EducationError::NoFundedModulesFromSponsor)
    } else if delivery_at < now {
        Some(EducationError::DeliveryNotReached)
    } else if sponsorship.active_bookings == u32::MAX || module.student_allocation == u64::MAX
        || config.next_booking_id == u64::MAX {
        Some(EducationError::Overflow)
    } else {
        None
    }
}

/// Book one token of a sponsored module for delivery at `delivery_at`. The
/// school's deposit is locked, one token's payment moves from the sponsor escrow
/// to a fresh booking escrow, and the token moves to the student allocation.
pub fn book_module(
    config: &mut Config,
    module: &mut Module,
    sponsorship: &mut Sponsorship,
    school: Key,
    module_id: u64,
    sponsor_id: u64,
    delivery_at: i64,
    metadata: String,
    now: i64,
    bump: u8,
) -> (r: Result<(Booking, Vec<Effect>), EducationError>)
    ensures
        book_error(*old(config), *old(module), *old(sponsorship), delivery_at, metadata, now) matches Some(
            e,
        ) ==> r == Err::<(Booking, Vec<Effect>), EducationError>(e),
        book_error(*old(config), *old(module), *old(sponsorship), delivery_at, metadata, now) is None
            ==> {
            &&& r matches Ok((b, v)) && b == opened_booking(
                *old(config),
                *old(sponsorship),
                school,
                module_id,
                sponsor_id,
                delivery_at,
                metadata,
                now,
                bump,
            ) && v@ == booking_moves(*old(config), *old(sponsorship))
            &&& *final(sponsorship) == sponsorship_after_booking(*old(sponsorship))
            &&& *final(module) == module_after_booking(*old(module))
            &&& *final(config) == (Config {
                next_booking_id: (old(config).next_booking_id + 1) as u64,
                ..*old(config)
            })
        },
        r is Err ==> *final(config) == *old(config) && *final(module) == *old(module) && *final(sponsorship) == *old(sponsorship),
{
    if !fits(&metadata, METADATA_MAX_LEN) {
        return Err(EducationError::InvalidConfig);
    }
    if module.school_allocation < 1 {
        return Err(EducationError::NotEnoughTokenAvailable);
    }
    if sponsorship.amount == 0 {
        return Err(EducationError::NoFundedModulesFromSponsor);
    }
    if delivery_at < now {
        return Err(EducationError::DeliveryNotReached);
    }
    if sponsorship.active_bookings == u32::MAX || module.student_allocation == u64::MAX
        || config.next_booking_id == u64::MAX {
        return Err(EducationError::Overflow);
    }
    let booking_id = config.next_booking_id;
    let deposit = config.booking_deposit;
    let per_token = sponsorship.price_per_token;
    sponsorship.amount = sponsorship.amount - 1;
    sponsorship.active_bookings = sponsorship.active_bookings + 1;
    module.school_allocation = module.school_allocation - 1;
    module.student_allocation = module.student_allocation + 1;
    config.next_booking_id = booking_id + 1;
    let booking = Booking {
        module_id,
        booking_id,
        sponsor_id,
        sponsor: sponsorship.sponsor,
        school,
        lecturer: None,
        payment_asset: sponsorship.payment_asset,
        price_per_token: per_token,
        score: None,
        deposit,
        booked_at: now,
        delivery_at,
        claimed_at: None,
        score_at: None,
        settled: false,
        disputer: None,
        proposed_score: None,
        metadata,
        bump,
    };
    Ok(
        (
            booking,
            vec![
                make_move(Pot::SchoolXcav, Pot::Vault, deposit),
                make_move(Pot::SponsorEscrow, Pot::BookingEscrow, per_token),
            ],
        ),
    )
}

/// Release the school's deposit once its booking is scored, settling the
/// sponsorship. The booking escrow is closed when the payout left it empty
/// (`escrow_balance` is its balance after settlement).
pub fn finish_booking_process(booking: &Booking, sponsorship: &mut Sponsorship, school: Key, escrow_balance: u64) -> (r: Result<
    Vec<Effect>,
    EducationError,
>)
    ensures
        booking.school != school ==> r == Err::<Vec<Effect>, EducationError>(EducationError::NoPermission),
        booking.school == school && booking.score is None ==> r == Err::<Vec<Effect>, EducationError>(
            EducationError::NoTestResultsSubmitted,
        ),
        booking.school == school && booking.score is Some && old(sponsorship).active_bookings == 0 ==> r
            == Err::<Vec<Effect>, EducationError>(EducationError::Underflow),
        booking.school == school && booking.score is Some && old(sponsorship).active_bookings > 0 ==> {
            &&& r matches Ok(v) && v@ == seq![mv(Pot::Vault, Pot::SchoolXcav, booking.deposit)] + (if escrow_balance
                == 0 {
                seq![Effect::CloseEscrow { escrow: Pot::BookingEscrow, rent_to: Pot::SchoolWallet }]
            } else {
                Seq::<Effect>::empty()
            })
            &&& *final(sponsorship) == (Sponsorship {
                active_bookings: (old(sponsorship).active_bookings - 1) as u32,
                ..*old(sponsorship)
            })
        },
        r is Err ==> *final(sponsorship) == *old(sponsorship),
{
    if booking.school != school {
        return Err(EducationError::NoPermission);
    }
    if booking.score.is_none() {
        return Err(EducationError::NoTestResultsSubmitted);
    }
    if sponsorship.active_bookings == 0 {
        return Err(EducationError::Underflow);
    }
    sponsorship.active_bookings = sponsorship.active_bookings - 1;
    let mut effects: Vec<Effect> = vec![make_move(Pot::Vault, Pot::SchoolXcav, booking.deposit)];
    if escrow_balance == 0 {
        effects.push(Effect::CloseEscrow { escrow: Pot::BookingEscrow, rent_to: Pot::SchoolWallet });
        proof {
            assert(effects@ =~= seq![mv(Pot::Vault, Pot::SchoolXcav, booking.deposit)] + seq![
                Effect::CloseEscrow { escrow: Pot::BookingEscrow, rent_to: Pot::SchoolWallet },
            ]);
        }
    } else {
        proof {
            assert(effects@ =~= seq![mv(Pot::Vault, Pot::SchoolXcav, booking.deposit)] + Seq::<
                Effect,
            >::empty());
        }
    }
    Ok(effects)
}

/// One strike's worth of a lecturer's deposit, `ceil(deposit * slash_bps / 10_000)`,
/// when it fits in 64 bits.
pub open spec fn slash_per_strike_spec(config: Config) -> Option<u64> {
    if fee_ceil_value(config.deliverer_deposit as int, config.strike_slash_bps as int) > u64::MAX {
        None
    } else {
        Some(fee_ceil_value(config.deliverer_deposit as int, config.strike_slash_bps as int) as u64)
    }
}

/// One strike's worth of the configured deliverer deposit.
pub fn slash_per_strike(config: &Config) -> (r: Result<u64, EducationError>)
    ensures
        r == match slash_per_strike_spec(*config) {
            Some(s) => Ok::<u64, EducationError>(s),
            None => Err::<u64, EducationError>(EducationError::Overflow),
        },
{
    let d: u128 = config.deliverer_deposit as u128;
    let b: u128 = config.strike_slash_bps as u128;
    assert(d * b + 9_999 <= u128::MAX) by (nonlinear_arith)
        requires
            d <= u64::MAX,
            b <= u16::MAX,
    ;
    let full = match fee_ceil(config.deliverer_deposit as u128, config.strike_slash_bps) {
        Ok(v) => v,
        Err(e) => return Err(e),
    };
    if full > u64::MAX as u128 {
        Err(EducationError::Overflow)
    } else {
        Ok(full as u64)
    }
}

/// Why a claim on a booking would be refused, checked in order.
pub open spec fn claim_error(
    config: Config,
    module: Module,
    deliverer: Deliverer,
    booking: Booking,
    lecturer: Key,
    lecturer_compliant: bool,
) -> Option<EducationError> {
    if !lecturer_compliant {
        Some(EducationError::NotCompliant)
    } else if booking.lecturer is Some {
        Some(EducationError::LecturerAlreadySet)
    } else if booking.school == lecturer {
        Some(EducationError::SchoolCannotClaimOwnBooking)
    } else if slash_per_strike_spec(config) is None || deliverer.active_claims == u32::MAX || slash_per_strike_spec(
        config,
    )->Some_0 * (deliverer.active_claims + 1) > u64::MAX {
        Some(EducationError::Overflow)
    } else if deliverer.deposit < slash_per_strike_spec(config)->Some_0 * (deliverer.active_claims + 1) {
        Some(EducationError::InsufficientDepositToClaim)
    } else if module.student_allocation < 1 {
        Some(EducationError::NotEnoughTokenAvailable)
    } else {
        None
    }
}

/// Claim a booking to deliver it (compliant ModuleDeliverer only). Each
/// concurrent claim must be backed by one strike's worth of deposit.
pub fn claim_booking(
    config: &Config,
    module: &mut Module,
    deliverer: &mut Deliverer,
    booking: &mut Booking,
    lecturer: Key,
    lecturer_compliant: bool,
    now: i64,
) -> (r: Result<(), EducationError>)
    ensures
        claim_error(*config, *old(module), *old(deliverer), *old(booking), lecturer, lecturer_compliant) matches Some(
            e,
        ) ==> r == Err::<(), EducationError>(e),
        claim_error(*config, *old(module), *old(deliverer), *old(booking), lecturer, lecturer_compliant)
            is None ==> {
            &&& r is Ok
            &&& *final(module) == module_after_claim(*old(module))
            &&& *final(booking) == (Booking {
                lecturer: Some(lecturer),
                claimed_at: Some(now),
                ..*old(booking)
            })
            &&& *final(deliverer) == (Deliverer {
                active_claims: (old(deliverer).active_claims + 1) as u32,
                ..*old(deliverer)
            })
        },
        r is Ok ==> final(deliverer).deposit >= slash_per_strike_spec(*config)->Some_0 * final(deliverer).active_claims,
        r is Err ==> *final(module) == *old(module) && *final(deliverer) == *old(deliverer) && *final(booking) == *old(booking),
{
    if !lecturer_compliant {
        return Err(EducationError::NotCompliant);
    }
    if booking.lecturer.is_some() {
        return Err(EducationError::LecturerAlreadySet);
    }
    if booking.school == lecturer {
        return Err(EducationError::SchoolCannotClaimOwnBooking);
    }
    let per_strike = match slash_per_strike(config) {
        Ok(s) => s,
        Err(e) => return Err(e),
    };
    let concurrent = match deliverer.active_claims.checked_add(1) {
        Some(c) => c,
        None => return Err(EducationError::Overflow),
    };
    let required = match per_strike.checked_mul(concurrent as u64) {
        Some(v) => v,
        None => return Err(EducationError::Overflow),
    };
    if deliverer.deposit < required {
        return Err(EducationError::InsufficientDepositToClaim);
    }
    if module.student_allocation < 1 {
        return Err(EducationError::NotEnoughTokenAvailable);
    }
    module.student_allocation = module.student_allocation - 1;
    booking.lecturer = Some(lecturer);
    booking.claimed_at = Some(now);
    deliverer.active_claims = concurrent;
    Ok(())
}

/// Why a school's cancellation would be refused, checked in order.
pub open spec fn cancel_booking_error(
    module: Module,
    booking: Booking,
    sponsorship: Sponsorship,
    counter: CancellationCounter,
    deliverer: Option<Deliverer>,
    school: Key,
    school_compliant: bool,
) -> Option<EducationError> {
    if !school_compliant {
        Some(EducationError::NotCompliant)
    } else if booking.school != school {
        Some(EducationError::NoPermission)
    } else if counter.count == u32::MAX {
        Some(EducationError::Overflow)
    } else if sponsorship.amount == u64::MAX {
        Some(EducationError::Overflow)
    } else if sponsorship.active_bookings == 0 {
        Some(EducationError::Underflow)
    } else if module.school_allocation == u64::MAX {
        Some(EducationError::Overflow)
    } else {
        match booking.lecturer {
            Some(l) => match deliverer {
                None => Some(EducationError::MissingAccount),
                Some(d) => if d.deliverer != l {
                    Some(EducationError::WrongPayoutRecipient)
                } else if d.active_claims == 0 {
                    Some(EducationError::Underflow)
                } else {
                    None
                },
            },
            None => if module.student_allocation == 0 {
                Some(EducationError::Underflow)
            } else {
                None
            },
        }
    }
}

/// Cancel a booking (compliant ModuleBooker, the booking's own school). The
/// token's payment returns to the sponsor escrow, the token becomes bookable
/// again, and the school's deposit is refunded, or slashed to the treasury once
/// its cancellation count reaches the maximum. A claiming lecturer's claim is
/// released.
pub fn cancel_booking(
    config: &Config,
    module: &mut Module,
    booking: &Booking,
    sponsorship: &mut Sponsorship,
    counter: &mut CancellationCounter,
    deliverer: &mut Option<Deliverer>,
    school: Key,
    school_compliant: bool,
    module_id: u64,
    booking_id: u64,
    now: i64,
    counter_bump: u8,
    cancellation_bump: u8,
) -> (r: Result<(Cancellation, Vec<Effect>), EducationError>)
    ensures
        cancel_booking_error(
            *old(module),
            *booking,
            *old(sponsorship),
            *old(counter),
            *old(deliverer),
            school,
            school_compliant,
        ) matches Some(e) ==> r == Err::<(Cancellation, Vec<Effect>), EducationError>(e),
        cancel_booking_error(
            *old(module),
            *booking,
            *old(sponsorship),
            *old(counter),
            *old(deliverer),
            school,
            school_compliant,
        ) is None ==> {
            let count = (old(counter).count + 1) as u32;
            let slashed = count >= config.max_cancellations;
            &&& r matches Ok((c, v)) && c == (Cancellation {
                school,
                booking_id,
                module_id,
                created_at: now,
                bump: cancellation_bump,
            }) && v@ == cancellation_moves(*booking, slashed)
            &&& *final(counter) == (CancellationCounter { school, count, bump: counter_bump })
            &&& *final(sponsorship) == sponsorship_after_cancellation(*old(sponsorship))
            &&& match booking.lecturer {
                Some(_) => {
                    &&& *final(module) == module_after_cancellation(*old(module), true)
                    &&& *final(deliverer) == Some(
                        Deliverer {
                            active_claims: (old(deliverer)->Some_0.active_claims - 1) as u32,
                            ..old(deliverer)->Some_0
                        },
                    )
                },
                None => {
                    &&& *final(module) == module_after_cancellation(*old(module), false)
                    &&& *final(deliverer) == *old(deliverer)
                },
            }
        },
        r is Err ==> *final(module) == *old(module) && *final(sponsorship) == *old(sponsorship) && *final(counter) == *old(counter) && *final(deliverer) == *old(deliverer),
        r is Ok ==> net_into(r->Ok_0.1@, Pot::SponsorEscrow) == booking.price_per_token,
        r is Ok ==> net_into(r->Ok_0.1@, Pot::BookingEscrow) == -booking.price_per_token,
        r is Ok ==> net_into(r->Ok_0.1@, Pot::Treasury) <= booking.deposit,
        r is Ok ==> net_into(r->Ok_0.1@, Pot::Treasury) + net_into(r->Ok_0.1@, Pot::SchoolXcav)
            == booking.deposit,
{
    if !school_compliant {
        return Err(EducationError::NotCompliant);
    }
    if booking.school != school {
        return Err(EducationError::NoPermission);
    }
    if counter.count == u32::MAX {
        return Err(EducationError::Overflow);
    }
    if sponsorship.amount == u64::MAX {
        return Err(EducationError::Overflow);
    }
    if sponsorship.active_bookings == 0 {
        return Err(EducationError::Underflow);
    }
    if module.school_allocation == u64::MAX {
        return Err(EducationError::Overflow);
    }
    match booking.lecturer {
        Some(l) => match deliverer {
            None => return Err(EducationError::MissingAccount),
            Some(d) => {
                if d.deliverer != l {
                    return Err(EducationError::WrongPayoutRecipient);
                }
                if d.active_claims == 0 {
                    return Err(EducationError::Underflow);
                }
                d.active_claims = d.active_claims - 1;
            },
        },
        None => {
            if module.student_allocation == 0 {
                return Err(EducationError::Underflow);
            }
            module.student_allocation = module.student_allocation - 1;
        },
    }
    let count = counter.count + 1;
    let slashed = count >= config.max_cancellations;
    let destination = if slashed {
        Pot::Treasury
    } else {
        Pot::SchoolXcav
    };
    sponsorship.amount = sponsorship.amount + 1;
    sponsorship.active_bookings = sponsorship.active_bookings - 1;
    module.school_allocation = module.school_allocation + 1;
    *counter = CancellationCounter { school, count, bump: counter_bump };
    let cancellation = Cancellation {
        school,
        booking_id,
        module_id,
        created_at: now,
        bump: cancellation_bump,
    };
    let effects = vec![
        make_move(Pot::BookingEscrow, Pot::SponsorEscrow, booking.price_per_token),
        make_move(Pot::Vault, destination, booking.deposit),
        Effect::CloseEscrow { escrow: Pot::BookingEscrow, rent_to: Pot::SchoolWallet },
    ];
    proof {
        assert(effects@ == cancellation_moves(*booking, slashed));
        law_cancellation_settlement(*booking, slashed);
    }
    Ok((cancellation, effects))
}

/// Clear a cancellation record once it has aged out of the window, lowering
/// the school's count (compliant ModuleBooker only).
pub fn clear_old_cancellation(
    config: &Config,
    counter: &mut CancellationCounter,
    cancellation: &Cancellation,
    school_compliant: bool,
    now: i64,
) -> (r: Result<(), EducationError>)
    ensures
        !school_compliant ==> r == Err::<(), EducationError>(EducationError::NotCompliant),
        school_compliant && sat_sub_i64_spec(now, cancellation.created_at) <= config.cancellation_window
            ==> r == Err::<(), EducationError>(EducationError::CancellationNotClearable),
        school_compliant && sat_sub_i64_spec(now, cancellation.created_at) > config.cancellation_window
            ==> r is Ok && *final(counter) == (CancellationCounter {
            count: if old(counter).count > 0 {
                (old(counter).count - 1) as u32
            } else {
                0
            },
            ..*old(counter)
        }),
        r is Err ==> *final(counter) == *old(counter),
{
    if !school_compliant {
        return Err(EducationError::NotCompliant);
    }
    let age = sat_sub_i64(now, cancellation.created_at);
    if !(age > config.cancellation_window) {
        return Err(EducationError::CancellationNotClearable);
    }
    counter.count = counter.count.saturating_sub(1);
    Ok(())
}

/// Why a lecturer's withdrawal from a claim would be refused, checked in order.
pub open spec fn cancel_claim_error(
    config: Config,
    module: Module,
    deliverer: Deliverer,
    booking: Booking,
    lecturer: Key,
    lecturer_compliant: bool,
) -> Option<EducationError> {
    if !lecturer_compliant {
        Some(EducationError::NotCompliant)
    } else if booking.lecturer != Some(lecturer) {
        Some(EducationError::NoPermission)
    } else if booking.score is Some {
        Some(EducationError::ScoreAlreadySet)
    } else if deliverer.active_strikes == u8::MAX {
        Some(EducationError::Overflow)
    } else if deliverer.active_strikes + 1 >= config.max_strikes && slash_per_strike_spec(config) is None {
        Some(EducationError::Overflow)
    } else if deliverer.active_claims == 0 {
        Some(EducationError::Underflow)
    } else if module.student_allocation == u64::MAX {
        Some(EducationError::Overflow)
    } else {
        None
    }
}

/// The slash a strike at the ceiling takes: one strike's worth, capped at the
/// deposit left.
pub open spec fn strike_slash(config: Config, deliverer: Deliverer) -> u64 {
    let full = slash_per_strike_spec(config)->Some_0;
    if full <= deliverer.deposit {
        full
    } else {
        deliverer.deposit
    }
}

/// A lecturer gives up a claimed, unscored booking, taking a strike. Once the
/// strikes reach the maximum, each strike slashes a share of the deposit to the
/// treasury. The booking becomes claimable again.
pub fn cancel_claim(
    config: &Config,
    module: &mut Module,
    deliverer: &mut Deliverer,
    booking: &mut Booking,
    lecturer: Key,
    lecturer_compliant: bool,
) -> (r: Result<Vec<Effect>, EducationError>)
    ensures
        cancel_claim_error(*config, *old(module), *old(deliverer), *old(booking), lecturer, lecturer_compliant) matches Some(
            e,
        ) ==> r == Err::<Vec<Effect>, EducationError>(e),
        cancel_claim_error(*config, *old(module), *old(deliverer), *old(booking), lecturer, lecturer_compliant)
            is None ==> {
            let strikes = (old(deliverer).active_strikes + 1) as u8;
            let at_ceiling = strikes >= config.max_strikes;
            let slash: u64 = if at_ceiling {
                strike_slash(*config, *old(deliverer))
            } else {
                0
            };
            &&& r matches Ok(v) && v@ == (if slash > 0 {
                seq![mv(Pot::Vault, Pot::Treasury, slash)]
            } else {
                Seq::<Effect>::empty()
            })
            &&& *final(deliverer) == (Deliverer {
                deposit: (old(deliverer).deposit - slash) as u64,
                active_strikes: strikes,
                active_claims: (old(deliverer).active_claims - 1) as u32,
                ..*old(deliverer)
            })
            &&& *final(booking) == (Booking { lecturer: None, claimed_at: None, ..*old(booking) })
            &&& *final(module) == module_after_claim_withdrawn(*old(module))
        },
        r is Err ==> *final(module) == *old(module) && *final(deliverer) == *old(deliverer) && *final(booking) == *old(booking),
{
    if !lecturer_compliant {
        return Err(EducationError::NotCompliant);
    }
    if booking.lecturer != Some(lecturer) {
        return Err(EducationError::NoPermission);
    }
    if booking.score.is_some() {
        return Err(EducationError::ScoreAlreadySet);
    }
    if deliverer.active_strikes == u8::MAX {
        return Err(EducationError::Overflow);
    }
    let strikes: u8 = deliverer.active_strikes + 1;
    let mut slash: u64 = 0;
    if strikes >= config.max_strikes {
        let full = match slash_per_strike(config) {
            Ok(s) => s,
            Err(e) => return Err(e),
        };
        slash = if full <= deliverer.deposit {
            full
        } else {
            deliverer.deposit
        };
    }
    if deliverer.active_claims == 0 {
        return Err(EducationError::Underflow);
    }
    if module.student_allocation == u64::MAX {
        return Err(EducationError::Overflow);
    }
    let mut effects: Vec<Effect> = Vec::new();
    if slash > 0 {
        effects.push(make_move(Pot::Vault, Pot::Treasury, slash));
        deliverer.deposit = deliverer.deposit - slash;
    }
    booking.lecturer = None;
    booking.claimed_at = None;
    deliverer.active_strikes = strikes;
    deliverer.active_claims = deliverer.active_claims - 1;
    module.student_allocation = module.student_allocation + 1;
    Ok(effects)
}

/// Register as a module deliverer, or top the deposit back up to the required
/// amount; a new record starts clean.
pub fn register_module_deliverer(config: &Config, deliverer: &mut Deliverer, signer: Key, bump: u8) -> (r: Vec<
    Effect,
>)
    ensures
        ({
            let start = if old(deliverer).deliverer == Key::zero_spec() {
                Deliverer {
                    deliverer: signer,
                    deposit: 0,
                    active_claims: 0,
                    active_strikes: 0,
                    successful_deliveries: 0,
                    bump,
                }
            } else {
                *old(deliverer)
            };
            let additional = sat_sub_u64_spec(config.deliverer_deposit, start.deposit);
            &&& r@ == (if additional > 0 {
                seq![mv(Pot::DelivererXcav, Pot::Vault, additional)]
            } else {
                Seq::<Effect>::empty()
            })
            &&& *final(deliverer) == (if additional > 0 {
                Deliverer { deposit: config.deliverer_deposit, ..start }
            } else {
                start
            })
        }),
        final(deliverer).deposit >= config.deliverer_deposit,
{
    if deliverer.deliverer.is_zero() {
        *deliverer = Deliverer {
            deliverer: signer,
            deposit: 0,
            active_claims: 0,
            active_strikes: 0,
            successful_deliveries: 0,
            bump,
        };
    }
    let additional = config.deliverer_deposit.saturating_sub(deliverer.deposit);
    if additional > 0 {
        deliverer.deposit = config.deliverer_deposit;
        vec![make_move(Pot::DelivererXcav, Pot::Vault, additional)]
    } else {
        Vec::new()
    }
}

/// Unregister as a deliverer once no claims are active: the deposit is
/// withdrawn, and the deliverer role renounced if it is still held.
pub fn unregister_module_deliverer(deliverer: &Deliverer, holds_role: bool) -> (r: Result<Vec<Effect>, EducationError>)
    ensures
        deliverer.active_claims != 0 ==> r == Err::<Vec<Effect>, EducationError>(
            EducationError::ModuleDelivererStillActive,
        ),
        deliverer.active_claims == 0 ==> (r matches Ok(v) && v@ == seq![
            mv(Pot::Vault, Pot::DelivererXcav, deliverer.deposit),
        ] + (if holds_role {
            seq![Effect::RenounceDelivererRole]
        } else {
            Seq::<Effect>::empty()
        })),
{
    if deliverer.active_claims != 0 {
        return Err(EducationError::ModuleDelivererStillActive);
    }
    let mut effects: Vec<Effect> = vec![make_move(Pot::Vault, Pot::DelivererXcav, deliverer.deposit)];
    if holds_role {
        effects.push(Effect::RenounceDelivererRole);
        proof {
            assert(effects@ =~= seq![mv(Pot::Vault, Pot::DelivererXcav, deliverer.deposit)] + seq![
                Effect::RenounceDelivererRole,
            ]);
        }
    } else {
        proof {
            assert(effects@ =~= seq![mv(Pot::Vault, Pot::DelivererXcav, deliverer.deposit)] + Seq::<
                Effect,
            >::empty());
        }
    }
    Ok(effects)
}

/// Issue a non-transferable credential for a scored booking (compliant
/// ModuleAIAgent only). A student's credential carries the booking's score.
pub fn mint_credential(
    booking: &Booking,
    agent_compliant: bool,
    module_id: u64,
    booking_id: u64,
    kind: CredentialKind,
    recipient: Key,
    uri: String,
    now: i64,
    bump: u8,
) -> (r: Result<Credential, EducationError>)
    ensures
        !agent_compliant ==> r == Err::<Credential, EducationError>(EducationError::NotCompliant),
        agent_compliant && text_len(&uri) > URI_MAX_LEN ==> r == Err::<Credential, EducationError>(
            EducationError::InvalidConfig,
        ),
        agent_compliant && text_len(&uri) <= URI_MAX_LEN && booking.score is None ==> r == Err::<
            Credential,
            EducationError,
        >(EducationError::NoTestResultsSubmitted),
        agent_compliant && text_len(&uri) <= URI_MAX_LEN && booking.score is Some ==> r == Ok::<
            Credential,
            EducationError,
        >(
            Credential {
                recipient,
                module_id,
                booking_id,
                kind,
                score: if kind == CredentialKind::Student {
                    booking.score
                } else {
                    None
                },
                issued_at: now,
                uri,
                bump,
            },
        ),
{
    if !agent_compliant {
        return Err(EducationError::NotCompliant);
    }
    if !fits(&uri, URI_MAX_LEN) {
        return Err(EducationError::InvalidConfig);
    }
    if booking.score.is_none() {
        return Err(EducationError::NoTestResultsSubmitted);
    }
    let score = match kind {
        CredentialKind::Student => booking.score,
        _ => None,
    };
    Ok(
        Credential {
            recipient,
            module_id,
            booking_id,
            kind,
            score,
            issued_at: now,
            uri,
            bump,
        },
    )
}

} // verus!
