//! The instrument registry: component instantiation, credential minting,
//! instrument creation with its default subscription terms, the metadata
//! journal, and the opening and closing of subscription rounds.

use vstd::prelude::*;
use crate::{Error, DEFAULT_SUBSCRIPTION_CAP, DEFAULT_SUBSCRIPTION_PRICE};
use crate::model::{AgentBadge, Instrument, InstrumentView, InvestorBadge, ManagerView,
    SecuritiesManager, SecurityForm, SecurityType};
use crate::text::{is_protected, is_protected_key, str_eq};

verus! {

/// The security type named by `s`, if it is one of the enumerated words.
pub open spec fn parse_security_type(s: Seq<char>) -> Option<SecurityType> {
    if s == "Equity"@ {
        Some(SecurityType::Equity)
    } else if s == "Bond"@ {
        Some(SecurityType::Bond)
    } else {
        None
    }
}

/// The security form named by `s`, if it is one of the enumerated words.
pub open spec fn parse_security_form(s: Seq<char>) -> Option<SecurityForm> {
    if s == "Bearer"@ {
        Some(SecurityForm::Bearer)
    } else if s == "Registered"@ {
        Some(SecurityForm::Registered)
    } else {
        None
    }
}

/// The instrument a fresh registration yields: status verified, the
/// subscription round open, the default cap and price, nothing issued,
/// nothing subscribed, no lifecycle events, an empty metadata journal.
pub open spec fn new_instrument_view(
    issuer_id: u64,
    security_type: SecurityType,
    security_form: SecurityForm,
    name: Seq<char>,
    symbol: Seq<char>,
) -> InstrumentView {
    InstrumentView {
        issuer_id,
        name,
        symbol,
        security_type,
        security_form,
        verified: true,
        subscription_open: true,
        subscription_cap: DEFAULT_SUBSCRIPTION_CAP,
        subscription_price: DEFAULT_SUBSCRIPTION_PRICE,
        issuance_amount: 0,
        subscribed_amount: 0,
        events: Seq::empty(),
        metadata: Seq::empty(),
    }
}

/// The engine after a successful metadata update: the pair journalled onto
/// the instrument's metadata.
pub open spec fn spec_update_metadata(
    v: ManagerView,
    instrument: usize,
    key: Seq<char>,
    value: Seq<char>,
) -> ManagerView {
    let iv = v.instruments[instrument as int];
    ManagerView {
        instruments: v.instruments.update(
            instrument as int,
            (InstrumentView { metadata: iv.metadata.push((key, value)), ..iv }),
        ),
        ..v
    }
}

/// The engine after a successful round opening.
pub open spec fn spec_open_subscription(v: ManagerView, instrument: usize) -> ManagerView {
    let iv = v.instruments[instrument as int];
    ManagerView {
        instruments: v.instruments.update(
            instrument as int,
            (InstrumentView { subscription_open: true, ..iv }),
        ),
        ..v
    }
}

/// The engine after a successful round close: the round shut, the issuance
/// amount fixed from the running subscription counter, and the counter
/// reset for the next round.
pub open spec fn spec_close_subscription(v: ManagerView, instrument: usize) -> ManagerView {
    let iv = v.instruments[instrument as int];
    ManagerView {
        instruments: v.instruments.update(
            instrument as int,
            (InstrumentView {
                subscription_open: false,
                issuance_amount: iv.subscribed_amount,
                subscribed_amount: 0,
                ..iv
            }),
        ),
        ..v
    }
}

impl SecuritiesManager {
    /// A fresh engine holding no instruments, no escrows, and an empty cash
    /// pool of the given resource.
    pub fn instantiate_securities_manager(cash_resource: u64) -> (r: SecuritiesManager)
        ensures
            r@ == (ManagerView {
                instruments: Seq::empty(),
                escrows: Seq::empty(),
                cash_resource,
                cash_pool: 0,
            }),
            r@.wf(),
    {
        let r = SecuritiesManager {
            instruments: Vec::new(),
            escrows: Vec::new(),
            cash_resource,
            cash_pool: 0,
        };
        proof {
            assert(r@ =~~= (ManagerView {
                instruments: Seq::empty(),
                escrows: Seq::empty(),
                cash_resource,
                cash_pool: 0,
            }));
        }
        r
    }

    /// Mints the agent credential for an issuer: the badge records the
    /// issuer's identity, read from the issuer's own badge, so that the
    /// agent can act only on that issuer's instruments.
    pub fn issuer_mint_agent_badge(&self, issuer_id: u64, company_lei: String, local_id: u64) -> (r:
        AgentBadge)
        ensures
            r.issuer_id == issuer_id,
            r.company_lei@ == company_lei@,
            r.local_id == local_id,
    {
        AgentBadge { issuer_id, company_lei, local_id }
    }

    /// Registers a new instrument for `issuer_id` and returns its handle.
    /// The security type must be `Equity` or `Bond` and the form `Bearer`
    /// or `Registered`; anything else is refused as `InvalidArgument`. The
    /// new instrument is verified, its round open, with the default cap and
    /// price.
    pub fn issuer_create_instrument(
        &mut self,
        issuer_id: u64,
        security_type: &str,
        security_form: &str,
        name: String,
        symbol: String,
    ) -> (r: Result<usize, Error>)
        requires
            old(self)@.wf(),
        ensures
            final(self)@.wf(),
            parse_security_type(security_type@) is None || parse_security_form(security_form@)
                is None ==> r == Err::<usize, Error>(Error::InvalidArgument) && final(self)@ == old(
                self,
            )@,
            parse_security_type(security_type@) is Some && parse_security_form(security_form@)
                is Some ==> r == Ok::<usize, Error>(old(self)@.instruments.len() as usize)
                && final(self)@ == (ManagerView {
                instruments: old(self)@.instruments.push(
                    new_instrument_view(
                        issuer_id,
                        parse_security_type(security_type@)->Some_0,
                        parse_security_form(security_form@)->Some_0,
                        name@,
                        symbol@,
                    ),
                ),
                ..old(self)@
            }),
    {
        let st = if str_eq(security_type, "Equity") {
            Some(SecurityType::Equity)
        } else if str_eq(security_type, "Bond") {
            Some(SecurityType::Bond)
        } else {
            None
        };
        let sf = if str_eq(security_form, "Bearer") {
            Some(SecurityForm::Bearer)
        } else if str_eq(security_form, "Registered") {
            Some(SecurityForm::Registered)
        } else {
            None
        };
        match (st, sf) {
            (Some(st_val), Some(sf_val)) => {
                let id = self.instruments.len();
                let inst = Instrument {
                    issuer_id,
                    name,
                    symbol,
                    security_type: st_val,
                    security_form: sf_val,
                    verified: true,
                    subscription_open: true,
                    subscription_cap: DEFAULT_SUBSCRIPTION_CAP,
                    subscription_price: DEFAULT_SUBSCRIPTION_PRICE,
                    issuance_amount: 0,
                    subscribed_amount: 0,
                    events: Vec::new(),
                    metadata: Vec::new(),
                };
                self.instruments.push(inst);
                proof {
                    assert(parse_security_type(security_type@) == Some(st_val));
                    assert(parse_security_form(security_form@) == Some(sf_val));
                    let n = old(self)@.instruments.len() as int;
                    assert(self.instruments@[n]@ =~~= new_instrument_view(
                        issuer_id,
                        st_val,
                        sf_val,
                        name@,
                        symbol@,
                    ));
                    assert(self@.instruments =~~= old(self)@.instruments.push(
                        new_instrument_view(issuer_id, st_val, sf_val, name@, symbol@),
                    ));
                    assert(self@ =~~= (ManagerView {
                        instruments: old(self)@.instruments.push(
                            new_instrument_view(issuer_id, st_val, sf_val, name@, symbol@),
                        ),
                        ..old(self)@
                    }));
                }
                Ok(id)
            },
            _ => Err(Error::InvalidArgument),
        }
    }

    /// The handles of the instruments currently set up, in registration
    /// order.
    pub fn get_instruments(&self) -> (r: Vec<usize>)
        ensures
            r@.len() == self@.instruments.len(),
            forall|k: int| 0 <= k < r@.len() ==> r@[k] == k,
    {
        let mut r: Vec<usize> = Vec::new();
        let n = self.instruments.len();
        let mut i: usize = 0;
        while i < n
            invariant
                i <= n,
                r@.len() == i,
                forall|k: int| 0 <= k < i ==> r@[k] == k,
            decreases n - i,
        {
            r.push(i);
            i += 1;
        }
        r
    }

    /// Journals a metadata value onto an instrument, for the issuer that
    /// registered it. Keys in the protected `sftr` namespace belong to the
    /// data-vendor collaborator and are refused as `Forbidden`; an unknown
    /// instrument is `InvalidArgument`; an issuer other than the
    /// registering one is `Unauthorized`.
    pub fn issuer_update_instrument_metadata(
        &mut self,
        issuer_id: u64,
        instrument: usize,
        key: String,
        value: String,
    ) -> (r: Result<(), Error>)
        requires
            old(self)@.wf(),
        ensures
            final(self)@.wf(),
            is_protected_key(key@) ==> r == Err::<(), Error>(Error::Forbidden) && final(self)@ == old(
                self,
            )@,
            !is_protected_key(key@) && !old(self)@.has_instrument(instrument) ==> r == Err::<
                (),
                Error,
            >(Error::InvalidArgument) && final(self)@ == old(self)@,
            !is_protected_key(key@) && old(self)@.has_instrument(instrument) && old(
                self,
            )@.instruments[instrument as int].issuer_id != issuer_id ==> r == Err::<(), Error>(
                Error::Unauthorized,
            ) && final(self)@ == old(self)@,
            !is_protected_key(key@) && old(self)@.has_instrument(instrument) && old(
                self,
            )@.instruments[instrument as int].issuer_id == issuer_id ==> r == Ok::<(), Error>(())
                && final(self)@ == spec_update_metadata(old(self)@, instrument, key@, value@),
    {
        if is_protected(key.as_str()) {
            return Err(Error::Forbidden);
        }
        if instrument >= self.instruments.len() {
            return Err(Error::InvalidArgument);
        }
        if self.instruments[instrument].issuer_id != issuer_id {
            return Err(Error::Unauthorized);
        }
        let inst = &mut self.instruments[instrument];
        inst.metadata.push((key, value));
        proof {
            assert(self@.instruments =~~= spec_update_metadata(
                old(self)@,
                instrument,
                key@,
                value@,
            ).instruments);
            assert(self@ =~~= spec_update_metadata(old(self)@, instrument, key@, value@));
        }
        Ok(())
    }

    /// The latest metadata value journalled for `key` on an instrument.
    pub fn get_metadata(&self, instrument: usize, key: &str) -> (r: Option<String>)
        ensures
            !self@.has_instrument(instrument) ==> r is None,
            self@.has_instrument(instrument) ==> match r {
                Some(s) => crate::model::metadata_lookup(
                    self@.instruments[instrument as int].metadata,
                    key@,
                ) == Some(s@),
                None => crate::model::metadata_lookup(
                    self@.instruments[instrument as int].metadata,
                    key@,
                ) is None,
            },
    {
        if instrument >= self.instruments.len() {
            return None;
        }
        let inst = &self.instruments[instrument];
        let ghost m = self@.instruments[instrument as int].metadata;
        let mut i: usize = inst.metadata.len();
        proof {
            assert(m.take(i as int) =~= m);
        }
        while i > 0
            invariant
                i <= inst.metadata.len(),
                m == self@.instruments[instrument as int].metadata,
                inst == self.instruments@[instrument as int],
                instrument < self@.instruments.len(),
                m.len() == inst.metadata.len(),
                forall|k: int| 0 <= k < m.len() ==> m[k] == (inst.metadata@[k].0@,
                    inst.metadata@[k].1@),
                crate::model::metadata_lookup(m, key@) == crate::model::metadata_lookup(
                    m.take(i as int),
                    key@,
                ),
            decreases i,
        {
            i -= 1;
            let entry = &inst.metadata[i];
            proof {
                assert(m.take(i as int + 1).drop_last() =~= m.take(i as int));
                assert(m.take(i as int + 1).last() == m[i as int]);
            }
            if str_eq(entry.0.as_str(), key) {
                let value = entry.1.clone();
                return Some(value);
            }
        }
        proof {
            assert(m.take(0) =~= Seq::<(Seq<char>, Seq<char>)>::empty());
        }
        None
    }

    /// Opens the subscription round of a verified instrument. An unknown
    /// instrument is `InvalidArgument`; one not verified is `NotReady`.
    pub fn issuer_open_subscription(&mut self, instrument: usize) -> (r: Result<(), Error>)
        requires
            old(self)@.wf(),
        ensures
            final(self)@.wf(),
            !old(self)@.has_instrument(instrument) ==> r == Err::<(), Error>(
                Error::InvalidArgument,
            ) && final(self)@ == old(self)@,
            old(self)@.has_instrument(instrument) && !old(
                self,
            )@.instruments[instrument as int].verified ==> r == Err::<(), Error>(Error::NotReady)
                && final(self)@ == old(self)@,
            old(self)@.has_instrument(instrument) && old(
                self,
            )@.instruments[instrument as int].verified ==> r == Ok::<(), Error>(()) && final(self)@
                == spec_open_subscription(old(self)@, instrument),
    {
        if instrument >= self.instruments.len() {
            return Err(Error::InvalidArgument);
        }
        if !self.instruments[instrument].verified {
            return Err(Error::NotReady);
        }
        let inst = &mut self.instruments[instrument];
        inst.subscription_open = true;
        proof {
            assert(self@.instruments =~~= spec_open_subscription(old(self)@, instrument)
                .instruments);
            assert(self@ =~~= spec_open_subscription(old(self)@, instrument));
        }
        Ok(())
    }

    /// Closes the subscription round of an instrument: the issuance amount
    /// is fixed from the running subscription counter and the counter is
    /// reset to zero. An unknown instrument is `InvalidArgument`.
    pub fn issuer_close_subscription(&mut self, instrument: usize) -> (r: Result<(), Error>)
        requires
            old(self)@.wf(),
        ensures
            final(self)@.wf(),
            !old(self)@.has_instrument(instrument) ==> r == Err::<(), Error>(
                Error::InvalidArgument,
            ) && final(self)@ == old(self)@,
            old(self)@.has_instrument(instrument) ==> r == Ok::<(), Error>(()) && final(self)@
                == spec_close_subscription(old(self)@, instrument),
    {
        if instrument >= self.instruments.len() {
            return Err(Error::InvalidArgument);
        }
        let inst = &mut self.instruments[instrument];
        inst.subscription_open = false;
        inst.issuance_amount = inst.subscribed_amount;
        inst.subscribed_amount = 0;
        proof {
            assert(self@.instruments =~~= spec_close_subscription(old(self)@, instrument)
                .instruments);
            assert(self@ =~~= spec_close_subscription(old(self)@, instrument));
        }
        Ok(())
    }

    /// The public KYC gate: investors from the US and investors presenting
    /// the number 666 are refused as `Forbidden`; everyone else receives an
    /// investor badge recording the country of residence.
    pub fn investor_check_kyc(&self, country: String, favourite_int: u64) -> (r: Result<
        InvestorBadge,
        Error,
    >)
        ensures
            (country@ == "US"@ || country@ == "USA"@ || favourite_int == 666) ==> r == Err::<
                InvestorBadge,
                Error,
            >(Error::Forbidden),
            !(country@ == "US"@ || country@ == "USA"@ || favourite_int == 666) ==> (r matches Ok(b)
                && b.country@ == country@ && b.local_id == favourite_int),
    {
        if str_eq(country.as_str(), "US") || str_eq(country.as_str(), "USA") {
            return Err(Error::Forbidden);
        }
        if favourite_int == 666 {
            return Err(Error::Forbidden);
        }
        Ok(InvestorBadge { country, local_id: favourite_int })
    }
}

} // verus!
