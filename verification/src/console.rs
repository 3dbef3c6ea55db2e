//! The console dispatcher: a state machine fed one transport byte at a time.
//!
//! Printable bytes accumulate into a line buffer of 128 bytes; a byte pushed
//! at an already-full buffer silently drops the whole partial line. A line
//! terminator closes the line: the line is parsed and the command dispatched
//! synchronously — a `mine` command runs its whole search before the next
//! byte is read — and the response bytes are appended to the transport
//! buffer. All other bytes are ignored.

use crate::mining::{ActivityIndicator, MinerFactory, MinerType, MiningError, MiningState,
    spec_mine_emission, spec_mine_result};
use crate::msg::entropy::{send_entropy_message, spec_entropy_message};
use crate::msg::hash::{send_current_hash_message, send_hash_message, spec_current_hash_message,
    spec_hash_message};
use crate::msg::help::{send_help_message, spec_help_message};
use crate::msg::info::{send_info_message, spec_info_message};
use crate::msg::mine::{send_mine_error_message, send_mine_result_message,
    send_mine_start_message, spec_mine_error_message, spec_mine_result_message,
    spec_mine_start_message};
use crate::msg::reset::{send_reset_message, spec_reset_message};
use crate::msg::unknown::{send_unknown_command_message, spec_unknown_command_message};
use crate::msg::zeros::{send_zeros_message, spec_zeros_message};
use crate::msg::{spec_parse, Command, CommandView};
use vstd::prelude::*;

verus! {

/// How many bytes the line buffer holds before a partial line is dropped.
pub const BUFFER_CAPACITY: usize = 128;

/// How one dispatched command relates the mining state before it to the
/// state after it and to the response bytes emitted, command by command.
/// A `mine` on a ready configuration is related to whatever its search
/// could have returned: the least winning nonce recorded and reported, or
/// exhaustion reported with the state left alone.
pub open spec fn spec_dispatch(
    s0: MiningState,
    cmd: CommandView,
    s1: MiningState,
    emitted: Seq<u8>,
) -> bool {
    match cmd {
        CommandView::Help => s1 == s0 && emitted == spec_help_message(),
        CommandView::Info => s1 == s0 && emitted == spec_info_message(s0),
        CommandView::Reset => s1 == MiningState::spec_default() && emitted
            == spec_reset_message(),
        CommandView::SetZeros(v) => s1 == (MiningState {
            zeros: v,
            is_configured: v > 0 && s0.entropy > 0,
            ..s0
        }) && emitted == spec_zeros_message(v as nat),
        CommandView::SetEntropy(v) => s1 == (MiningState {
            entropy: v,
            is_configured: s0.zeros > 0 && v > 0,
            ..s0
        }) && emitted == spec_entropy_message(v as nat),
        CommandView::Mine => {
            if !s0.is_configured {
                s1 == s0 && emitted == spec_mine_error_message(
                    "configure zeros and entropy first"@,
                )
            } else {
                exists|r: Result<u32, MiningError>|
                    {
                        &&& #[trigger] spec_mine_result(s0.hash_algorithm, s0, r)
                        &&& match r {
                            Ok(nonce) => s1 == (MiningState {
                                last_nonce: Some(nonce),
                                ..s0
                            }) && emitted == spec_mine_start_message(
                                s0.zeros as nat,
                                s0.entropy as nat,
                            ) + spec_mine_emission(s0.hash_algorithm, s0, r)
                                + spec_mine_result_message(nonce as nat),
                            Err(_) => s1 == s0 && emitted == spec_mine_start_message(
                                s0.zeros as nat,
                                s0.entropy as nat,
                            ) + spec_mine_emission(s0.hash_algorithm, s0, r)
                                + spec_mine_error_message("mining failed"@),
                        }
                    }
            }
        },
        CommandView::SetHashAlgorithm(a) => s1 == (MiningState { hash_algorithm: a, ..s0 })
            && emitted == spec_hash_message(a),
        CommandView::QueryHashAlgorithm => s1 == s0 && emitted == spec_current_hash_message(
            s0.hash_algorithm,
        ),
        CommandView::Unrecognized(text) => s1 == s0 && emitted == spec_unknown_command_message(
            text,
        ),
    }
}


/// How one transport byte moves the console: a terminator on a non-empty
/// buffer dispatches the parsed line and empties the buffer; on an empty
/// buffer it does nothing. A printable byte is appended, unless the buffer
/// is already full, in which case the whole partial line is dropped. Any
/// other byte is ignored.
pub open spec fn spec_console_step(
    buffer0: Seq<u8>,
    s0: MiningState,
    byte: u8,
    buffer1: Seq<u8>,
    s1: MiningState,
    emitted: Seq<u8>,
) -> bool {
    if byte == 13 || byte == 10 {
        if buffer0.len() > 0 {
            buffer1 == Seq::<u8>::empty() && spec_dispatch(s0, spec_parse(buffer0), s1, emitted)
        } else {
            buffer1 == buffer0 && s1 == s0 && emitted == Seq::<u8>::empty()
        }
    } else if 32 <= byte <= 126 {
        if buffer0.len() < BUFFER_CAPACITY {
            buffer1 == buffer0.push(byte) && s1 == s0 && emitted == Seq::<u8>::empty()
        } else {
            buffer1 == Seq::<u8>::empty() && s1 == s0 && emitted == Seq::<u8>::empty()
        }
    } else {
        buffer1 == buffer0 && s1 == s0 && emitted == Seq::<u8>::empty()
    }
}

/// How a whole chunk of transport bytes moves the console: the steps for
/// each byte in order, with the emitted responses concatenated.
pub open spec fn spec_console_run(
    buffer0: Seq<u8>,
    s0: MiningState,
    bytes: Seq<u8>,
    buffer1: Seq<u8>,
    s1: MiningState,
    emitted: Seq<u8>,
) -> bool
    decreases bytes.len(),
{
    if bytes.len() == 0 {
        buffer1 == buffer0 && s1 == s0 && emitted == Seq::<u8>::empty()
    } else {
        exists|bm: Seq<u8>, sm: MiningState, e1: Seq<u8>, e2: Seq<u8>|
            #![trigger spec_console_step(bm, sm, bytes.last(), buffer1, s1, e2), e1 + e2]
            {
                &&& spec_console_run(buffer0, s0, bytes.drop_last(), bm, sm, e1)
                &&& spec_console_step(bm, sm, bytes.last(), buffer1, s1, e2)
                &&& emitted == e1 + e2
            }
    }
}

/// The console: the line buffer, the mining state, and the engine currently
/// selected. The state owns the configuration; the engine is kept on the
/// algorithm the state names.
pub struct Console {
    pub buffer: Vec<u8>,
    pub state: MiningState,
    pub miner: MinerType,
}

impl Console {
    /// The buffer never exceeds its capacity, the derived ready flag is in
    /// sync, and the selected engine searches with the configured algorithm.
    pub open spec fn wf(self) -> bool {
        &&& self.buffer@.len() <= BUFFER_CAPACITY
        &&& self.state.wf()
        &&& self.miner.spec_algorithm() == self.state.hash_algorithm
    }

    pub fn new() -> (c: Self)
        ensures
            c.wf(),
            c.buffer@ == Seq::<u8>::empty(),
            c.state == MiningState::spec_default(),
    {
        let state = MiningState::new();
        let miner = MinerFactory::create_miner_for_algorithm(state.get_hash_algorithm());
        Console { buffer: Vec::new(), state, miner }
    }

    /// Dispatch one parsed command: mutate the mining state, keep the engine
    /// in sync, and append the response bytes to `uart`.
    fn execute<L: ActivityIndicator>(&mut self, cmd: Command, uart: &mut Vec<u8>, led: &mut L)
        requires
            old(self).wf(),
        ensures
            final(self).wf(),
            final(self).buffer@ == old(self).buffer@,
            exists|em: Seq<u8>|
                #[trigger] spec_dispatch(old(self).state, cmd@, final(self).state, em)
                    && final(uart)@ == old(uart)@ + em,
    {
        match cmd {
            Command::Help => {
                send_help_message(uart);
                proof {
                    assert(spec_dispatch(
                        old(self).state,
                        cmd@,
                        self.state,
                        spec_help_message(),
                    ));
                }
            },
            Command::Info => {
                send_info_message(uart, &self.state);
                proof {
                    assert(spec_dispatch(
                        old(self).state,
                        cmd@,
                        self.state,
                        spec_info_message(old(self).state),
                    ));
                }
            },
            Command::Reset => {
                send_reset_message(uart, &mut self.state);
                let algorithm = self.state.get_hash_algorithm();
                self.miner = MinerFactory::create_miner_for_algorithm(algorithm);
                proof {
                    assert(spec_dispatch(
                        old(self).state,
                        cmd@,
                        self.state,
                        spec_reset_message(),
                    ));
                }
            },
            Command::SetZeros(zeros) => {
                self.state.set_zeros(zeros);
                send_zeros_message(uart, zeros);
                proof {
                    assert(spec_dispatch(
                        old(self).state,
                        cmd@,
                        self.state,
                        spec_zeros_message(zeros as nat),
                    ));
                }
            },
            Command::SetEntropy(entropy) => {
                self.state.set_entropy(entropy);
                send_entropy_message(uart, entropy);
                proof {
                    assert(spec_dispatch(
                        old(self).state,
                        cmd@,
                        self.state,
                        spec_entropy_message(entropy as nat),
                    ));
                }
            },
            Command::Mine => {
                if self.state.is_ready_to_mine() {
                    send_mine_start_message(uart, self.state.zeros, self.state.entropy);
                    self.miner.update_state(self.state);
                    let ghost s0 = old(self).state;
                    let r = self.miner.mine(uart, led);
                    match r {
                        Ok(nonce) => {
                            self.state.set_last_nonce(nonce);
                            send_mine_result_message(uart, nonce);
                            proof {
                                let em = spec_mine_start_message(s0.zeros as nat, s0.entropy as nat)
                                    + spec_mine_emission(s0.hash_algorithm, s0, r)
                                    + spec_mine_result_message(nonce as nat);
                                assert(uart@ =~= old(uart)@ + em);
                                assert(spec_dispatch(s0, cmd@, self.state, em));
                            }
                        },
                        Err(_) => {
                            send_mine_error_message(uart, "mining failed");
                            proof {
                                let em = spec_mine_start_message(s0.zeros as nat, s0.entropy as nat)
                                    + spec_mine_emission(s0.hash_algorithm, s0, r)
                                    + spec_mine_error_message("mining failed"@);
                                assert(uart@ =~= old(uart)@ + em);
                                assert(spec_dispatch(s0, cmd@, self.state, em));
                            }
                        },
                    }
                } else {
                    send_mine_error_message(uart, "configure zeros and entropy first");
                    proof {
                        assert(spec_dispatch(
                            old(self).state,
                            cmd@,
                            self.state,
                            spec_mine_error_message("configure zeros and entropy first"@),
                        ));
                    }
                }
            },
            Command::SetHashAlgorithm(algorithm) => {
                self.state.set_hash_algorithm(algorithm);
                self.miner = MinerFactory::create_miner_for_algorithm(algorithm);
                send_hash_message(uart, algorithm);
                proof {
                    assert(spec_dispatch(
                        old(self).state,
                        cmd@,
                        self.state,
                        spec_hash_message(algorithm),
                    ));
                }
            },
            Command::QueryHashAlgorithm => {
                send_current_hash_message(uart, self.state.get_hash_algorithm());
                proof {
                    assert(spec_dispatch(
                        old(self).state,
                        cmd@,
                        self.state,
                        spec_current_hash_message(old(self).state.hash_algorithm),
                    ));
                }
            },
            Command::Unrecognized(text) => {
                send_unknown_command_message(uart, text.as_slice());
                proof {
                    assert(spec_dispatch(
                        old(self).state,
                        cmd@,
                        self.state,
                        spec_unknown_command_message(text@),
                    ));
                }
            },
        }
    }

    /// Feed one transport byte to the console. A terminator on a non-empty
    /// buffer parses and dispatches the buffered line and empties the buffer;
    /// on an empty buffer it does nothing. A printable byte is appended,
    /// unless the buffer is already full, in which case the whole partial
    /// line is silently dropped. Any other byte is ignored.
    pub fn process_byte<L: ActivityIndicator>(
        &mut self,
        byte: u8,
        uart: &mut Vec<u8>,
        led: &mut L,
    )
        requires
            old(self).wf(),
        ensures
            final(self).wf(),
            exists|em: Seq<u8>|
                #[trigger] spec_console_step(
                    old(self).buffer@,
                    old(self).state,
                    byte,
                    final(self).buffer@,
                    final(self).state,
                    em,
                ) && final(uart)@ == old(uart)@ + em,
    {
        if byte == 13 || byte == 10 {
            if self.buffer.len() > 0 {
                let cmd = Command::from_str(self.buffer.as_slice());
                self.execute(cmd, uart, led);
                self.buffer.clear();
                proof {
                    let em = choose|em: Seq<u8>|
                        #[trigger] spec_dispatch(
                            old(self).state,
                            cmd@,
                            self.state,
                            em,
                        ) && uart@ == old(uart)@ + em;
                    assert(spec_console_step(
                        old(self).buffer@,
                        old(self).state,
                        byte,
                        self.buffer@,
                        self.state,
                        em,
                    ));
                }
                return ;
            }
        } else if 32 <= byte && byte <= 126 {
            if self.buffer.len() < BUFFER_CAPACITY {
                self.buffer.push(byte);
            } else {
                self.buffer.clear();
            }
        }
        proof {
            assert(uart@ =~= old(uart)@ + Seq::<u8>::empty());
            assert(spec_console_step(
                old(self).buffer@,
                old(self).state,
                byte,
                self.buffer@,
                self.state,
                Seq::<u8>::empty(),
            ));
        }
    }

    /// Feed a chunk of transport bytes to the console, in order.
    pub fn process_bytes<L: ActivityIndicator>(
        &mut self,
        bytes: &[u8],
        uart: &mut Vec<u8>,
        led: &mut L,
    )
        requires
            old(self).wf(),
        ensures
            final(self).wf(),
            exists|em: Seq<u8>|
                #[trigger] spec_console_run(
                    old(self).buffer@,
                    old(self).state,
                    bytes@,
                    final(self).buffer@,
                    final(self).state,
                    em,
                ) && final(uart)@ == old(uart)@ + em,
    {
        let n = bytes.len();
        let ghost mut emitted_all: Seq<u8> = Seq::<u8>::empty();
        proof {
            assert(bytes@.take(0) =~= Seq::<u8>::empty());
            assert(uart@ =~= old(uart)@ + emitted_all);
            assert(spec_console_run(
                old(self).buffer@,
                old(self).state,
                bytes@.take(0),
                self.buffer@,
                self.state,
                emitted_all,
            ));
        }
        for i in 0..n
            invariant
                n == bytes@.len(),
                self.wf(),
                spec_console_run(
                    old(self).buffer@,
                    old(self).state,
                    bytes@.take(i as int),
                    self.buffer@,
                    self.state,
                    emitted_all,
                ),
                uart@ == old(uart)@ + emitted_all,
        {
            let ghost buffer_mid = self.buffer@;
            let ghost state_mid = self.state;
            let ghost uart_mid = uart@;
            self.process_byte(bytes[i], uart, led);
            proof {
                let step_em = choose|em: Seq<u8>|
                    #[trigger] spec_console_step(
                        buffer_mid,
                        state_mid,
                        bytes@[i as int],
                        self.buffer@,
                        self.state,
                        em,
                    ) && uart@ == uart_mid + em;
                assert(bytes@.take(i + 1).drop_last() =~= bytes@.take(i as int));
                assert(bytes@.take(i + 1).last() == bytes@[i as int]);
                assert(spec_console_run(
                    old(self).buffer@,
                    old(self).state,
                    bytes@.take(i + 1).drop_last(),
                    buffer_mid,
                    state_mid,
                    emitted_all,
                ));
                assert(spec_console_step(
                    buffer_mid,
                    state_mid,
                    bytes@.take(i + 1).last(),
                    self.buffer@,
                    self.state,
                    step_em,
                ));
                assert(spec_console_run(
                    old(self).buffer@,
                    old(self).state,
                    bytes@.take(i + 1),
                    self.buffer@,
                    self.state,
                    emitted_all + step_em,
                ));
                emitted_all = emitted_all + step_em;
                assert(uart@ =~= old(uart)@ + emitted_all);
            }
        }
        proof {
            assert(bytes@.take(n as int) =~= bytes@);
        }
    }
}

} // verus!
