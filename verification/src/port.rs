//! Ports configured for a function, and groups of ports in a row.
use vstd::prelude::*;

use crate::Error;
use crate::config::{
    ConfigMode5, ConfigMode7, Port, PortMode, ADCRANGE, AVR, DACRANGE, MAX_ADDRESS, NSAMPLES,
    REG_ADC_DATA, REG_DAC_DATA,
};
use crate::frame::{
    burst_frame, frame_writes, lemma_word_round_trip, word_frame, words_bytes,
};
use crate::session::{Request, RequestView};

verus! {

/// A port together with the function it is configured for.
pub struct ConfiguredPort<C> {
    pub config: C,
    pub port: Port,
}

/// Address of a port's DAC data register.
pub open spec fn dac_data_addr(port: Port) -> u8 {
    (REG_DAC_DATA + port.number()) as u8
}

/// Address of a port's ADC data register.
pub open spec fn adc_data_addr(port: Port) -> u8 {
    (REG_ADC_DATA + port.number()) as u8
}

impl<C: PortMode> ConfiguredPort<C> {
    /// Configures `port` for `config`: the configured port, and the request
    /// that writes the configuration word to the port's configuration register.
    pub fn configure(port: Port, config: C) -> (r: (Self, Request))
        ensures
            r.0.config == config,
            r.0.port == port,
            r.1@ == RequestView::WriteRegister(port.config_addr(), config.word()),
            r.1@.valid(),
    {
        let request = Request::WriteRegister(port.as_config_addr(), config.as_u16());
        (ConfiguredPort { config, port }, request)
    }

    /// Configures the same port for another function.
    pub fn into_mode<D: PortMode>(self, config: D) -> (r: (ConfiguredPort<D>, Request))
        ensures
            r.0.config == config,
            r.0.port == self.port,
            r.1@ == RequestView::WriteRegister(self.port.config_addr(), config.word()),
            r.1@.valid(),
    {
        ConfiguredPort::configure(self.port, config)
    }

    /// The request that writes the current configuration word again.
    fn config_request(&self) -> (r: Request)
        ensures
            r@ == RequestView::WriteRegister(self.port.config_addr(), self.config.word()),
    {
        Request::WriteRegister(self.port.as_config_addr(), self.config.as_u16())
    }
}

impl ConfiguredPort<ConfigMode5> {
    /// The request that sets the port's DAC to `data`.
    pub fn set_value(&self, data: u16) -> (r: Request)
        ensures
            r@ == RequestView::WriteRegister(dac_data_addr(self.port), data),
            r@.valid(),
    {
        Request::WriteRegister(REG_DAC_DATA + self.port.as_u8(), data)
    }

    /// Changes the output range: only the range changes, and the request
    /// writes the new configuration word.
    pub fn configure_range(&mut self, range: DACRANGE) -> (r: Request)
        ensures
            final(self).config == ConfigMode5(range),
            final(self).port == old(self).port,
            r@ == RequestView::WriteRegister(
                old(self).port.config_addr(),
                final(self).config.word(),
            ),
            r@.valid(),
    {
        self.config.0 = range;
        self.config_request()
    }
}

impl ConfiguredPort<ConfigMode7> {
    /// The request that reads the port's ADC.
    pub fn get_value(&self) -> (r: Request)
        ensures
            r@ == RequestView::ReadRegister(adc_data_addr(self.port)),
            r@.valid(),
    {
        Request::ReadRegister(REG_ADC_DATA + self.port.as_u8())
    }

    /// Changes the ADC reference: only the reference changes, and the request
    /// writes the new configuration word.
    pub fn configure_avr(&mut self, avr: AVR) -> (r: Request)
        ensures
            final(self).config == ConfigMode7(avr, old(self).config.1, old(self).config.2),
            final(self).port == old(self).port,
            r@ == RequestView::WriteRegister(
                old(self).port.config_addr(),
                final(self).config.word(),
            ),
            r@.valid(),
    {
        self.config.0 = avr;
        self.config_request()
    }

    /// Changes the input range: only the range changes, and the request
    /// writes the new configuration word.
    pub fn configure_range(&mut self, range: ADCRANGE) -> (r: Request)
        ensures
            final(self).config == ConfigMode7(old(self).config.0, range, old(self).config.2),
            final(self).port == old(self).port,
            r@ == RequestView::WriteRegister(
                old(self).port.config_addr(),
                final(self).config.word(),
            ),
            r@.valid(),
    {
        self.config.1 = range;
        self.config_request()
    }

    /// Changes the number of samples averaged: only that number changes, and
    /// the request writes the new configuration word.
    pub fn configure_nsamples(&mut self, nsamples: NSAMPLES) -> (r: Request)
        ensures
            final(self).config == ConfigMode7(old(self).config.0, old(self).config.1, nsamples),
            final(self).port == old(self).port,
            r@ == RequestView::WriteRegister(
                old(self).port.config_addr(),
                final(self).config.word(),
            ),
            r@.valid(),
    {
        self.config.2 = nsamples;
        self.config_request()
    }
}

/// Whether the ports are in a row: each one's number is its predecessor's plus one.
pub open spec fn in_a_row(ports: Seq<Port>) -> bool {
    forall|i: int| 0 <= i < ports.len() - 1 ==> #[trigger] ports[i + 1].number() == ports[i].number() + 1
}

/// Accepts ports that are in a row, and refuses others with a port error.
pub fn check_in_a_row<S, P>(ports: &[Port]) -> (r: Result<(), Error<S, P>>)
    ensures
        r is Ok <==> in_a_row(ports@),
        r is Ok <==> forall|i: int|
            0 <= i < ports@.len() - 1 ==> #[trigger] ports@[i + 1].number() == ports@[i].number()
                + 1,
        r matches Err(e) ==> e is Port,
        ports@.len() <= 1 ==> r is Ok,
{
    let mut i: usize = 1;
    while i < ports.len()
        invariant
            1 <= i,
            forall|j: int| 0 <= j < i - 1 && j < ports@.len() - 1 ==> #[trigger] ports@[j + 1].number()
                == ports@[j].number() + 1,
        decreases ports@.len() - i,
    {
        if ports[i].as_u8() != ports[i - 1].as_u8() + 1 {
            assert(ports@[(i - 1) + 1].number() != ports@[i - 1].number() + 1);
            return Err(Error::Port);
        }
        i = i + 1;
    }
    Ok(())
}

/// The request that writes `data` to the DACs of the ports in a row from `first` on.
pub fn write_dac_values(first: Port, data: Vec<u16>) -> (r: Request)
    ensures
        r@ == RequestView::WriteRegisters(dac_data_addr(first), data@),
        r@.checkable(),
{
    Request::WriteRegisters(REG_DAC_DATA + first.as_u8(), data)
}

/// The request that reads the ADCs of `n` ports in a row from `first` on.
pub fn read_adc_values(first: Port, n: usize) -> (r: Request)
    ensures
        r@ == RequestView::ReadRegisters(adc_data_addr(first), n as nat),
        r@.checkable(),
{
    Request::ReadRegisters(REG_ADC_DATA + first.as_u8(), n)
}

/// Every port has its own configuration, ADC data and DAC data registers, all
/// of them registers of the device, and no register serves two purposes.
pub proof fn lemma_port_registers(p: Port, q: Port)
    ensures
        p.config_addr() <= MAX_ADDRESS,
        adc_data_addr(p) <= MAX_ADDRESS,
        dac_data_addr(p) <= MAX_ADDRESS,
        p != q ==> p.config_addr() != q.config_addr(),
        p != q ==> adc_data_addr(p) != adc_data_addr(q),
        p != q ==> dac_data_addr(p) != dac_data_addr(q),
        p.config_addr() != adc_data_addr(q),
        p.config_addr() != dac_data_addr(q),
        adc_data_addr(p) != dac_data_addr(q),
{
}

/// For ports in a row, the registers of the `i`-th port follow those of the
/// first port at distance `i`: a burst from the first port's data register on
/// reaches each port of the row in turn.
pub proof fn lemma_in_a_row_addresses(ports: Seq<Port>, i: int)
    requires
        in_a_row(ports),
        0 <= i < ports.len(),
    ensures
        ports[i].number() == ports[0].number() + i,
        dac_data_addr(ports[i]) == dac_data_addr(ports[0]) + i,
        adc_data_addr(ports[i]) == adc_data_addr(ports[0]) + i,
    decreases i,
{
    if i > 0 {
        lemma_in_a_row_addresses(ports, i - 1);
        assert(ports[(i - 1) + 1].number() == ports[i - 1].number() + 1);
    }
}

/// A burst over ports in a row sets each port's DAC to its own value: the
/// request is valid, and the (register, value) pairs its frame sets are those
/// that `set_value(data[i])` on each port `ports[i]` would set, one per port.
pub proof fn lemma_row_burst_sets_each_port(ports: Seq<Port>, data: Seq<u16>)
    requires
        in_a_row(ports),
        1 <= ports.len(),
        data.len() == ports.len(),
    ensures
        RequestView::WriteRegisters(dac_data_addr(ports[0]), data).valid(),
        frame_writes(burst_frame(dac_data_addr(ports[0]), data)) == Seq::new(
            data.len(),
            |i: int| (dac_data_addr(ports[i]) as int, data[i]),
        ),
        forall|i: int|
            0 <= i < data.len() ==> #[trigger] frame_writes(
                word_frame(dac_data_addr(ports[i]), data[i]),
            ) == seq![(dac_data_addr(ports[i]) as int, data[i])],
{
    let n = data.len() as int;
    let start = dac_data_addr(ports[0]);
    let frame = burst_frame(start, data);
    lemma_in_a_row_addresses(ports, n - 1);
    assert(frame_writes(frame) =~= Seq::new(
        data.len(),
        |i: int| (dac_data_addr(ports[i]) as int, data[i]),
    )) by {
        assert forall|i: int| 0 <= i < n implies #[trigger] frame_writes(frame)[i] == (
        dac_data_addr(ports[i]) as int,
        data[i],
        ) by {
            lemma_in_a_row_addresses(ports, i);
            assert(frame[2 * i + 1] == words_bytes(data)[2 * i]);
            assert(frame[2 * i + 2] == words_bytes(data)[2 * i + 1]);
            assert((2 * i + 1) / 2 == i);
            lemma_word_round_trip(data[i]);
        }
    }
    assert forall|i: int| 0 <= i < n implies #[trigger] frame_writes(
        word_frame(dac_data_addr(ports[i]), data[i]),
    ) == seq![(dac_data_addr(ports[i]) as int, data[i])] by {
        lemma_word_round_trip(data[i]);
        assert(frame_writes(word_frame(dac_data_addr(ports[i]), data[i])) =~= seq![
            (dac_data_addr(ports[i]) as int, data[i]),
        ]);
    }
}

/// Ports are in a row exactly when each port's number is one more than its
/// predecessor's, wherever the row stands among the twenty ports: a row that
/// ends at port 19 is a row like any other.
pub proof fn lemma_in_a_row_exactly(ports: Seq<Port>)
    ensures
        in_a_row(ports) <==> forall|i: int|
            0 <= i < ports.len() - 1 ==> #[trigger] ports[i + 1].number() == ports[i].number() + 1,
        in_a_row(seq![Port::P18, Port::P19]),
        !in_a_row(seq![Port::P18, Port::P18]),
        (forall|i: int|
            0 <= i < ports.len() ==> #[trigger] ports[i].number() == ports[0].number() + i)
            ==> in_a_row(ports),
{
    assert(seq![Port::P18, Port::P19][1].number() == seq![Port::P18, Port::P19][0].number() + 1);
    assert(seq![Port::P18, Port::P18][0int + 1].number() != seq![Port::P18, Port::P18][0].number() + 1);
    if forall|i: int| 0 <= i < ports.len() ==> #[trigger] ports[i].number() == ports[0].number() + i {
        assert forall|i: int| 0 <= i < ports.len() - 1 implies #[trigger] ports[i + 1].number()
            == ports[i].number() + 1 by {
            assert(ports[i].number() == ports[0].number() + i);
            assert(ports[i + 1].number() == ports[0].number() + (i + 1));
        }
    }
}

} // verus!
