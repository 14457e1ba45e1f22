use trebuchet::checksum;
use trebuchet::receiver::Receiver;
use trebuchet::receiver::ReceiverAction;
use trebuchet::receiver::ReceiverEvent;
use trebuchet::receiver::ReceiverFailure;
use trebuchet::scanner::scan_bytes;
use trebuchet::sender::Sender;
use trebuchet::sender::SenderAction;
use trebuchet::sender::SenderEvent;
use trebuchet::sender::SenderState;
use trebuchet::sender::TransferError;

/// Drive both state machines through a loss-free transfer of `image`,
/// shuttling every byte between them, and return the buffer the receiver
/// hands off together with the number of image-chunk acknowledgements.
fn run_transfer(image: Vec<u8>) -> (Vec<u8>, usize) {
    let mut s = Sender::new(image.clone());
    let mut r = Receiver::new();

    // Receiver requests the transfer; sender scans, unbounded, for RDY(256).
    let rdy = match r.action() {
        ReceiverAction::EmitToken { data } => data,
        a => panic!("unexpected receiver action: {:?}", a),
    };
    assert_eq!(rdy, b"RDY(256)\n".to_vec());
    r.on_event(ReceiverEvent::EmitDone);
    match s.action() {
        SenderAction::ScanUnbounded { target } => {
            assert_eq!(scan_bytes(&target, &rdy), Some(rdy.len()));
        }
        a => panic!("unexpected sender action: {:?}", a),
    }
    s.on_event(SenderEvent::ScanMatched);

    // Size field: 8 raw bytes, big-endian.
    let size_bytes = match s.action() {
        SenderAction::Write { data } => data,
        a => panic!("unexpected sender action: {:?}", a),
    };
    assert_eq!(size_bytes.len(), 8);
    s.on_event(SenderEvent::WriteDone);
    match r.action() {
        ReceiverAction::ReadRegion { len } => assert_eq!(len, 8),
        a => panic!("unexpected receiver action: {:?}", a),
    }
    r.on_event(ReceiverEvent::RegionRead { data: size_bytes });

    // ACK(0) for the size field's sole chunk.
    let ack0 = match r.action() {
        ReceiverAction::EmitToken { data } => data,
        a => panic!("unexpected receiver action: {:?}", a),
    };
    assert_eq!(ack0, b"ACK(0)\n".to_vec());
    r.on_event(ReceiverEvent::EmitDone);
    match s.action() {
        SenderAction::ScanBounded { target, wide } => {
            assert!(!wide);
            assert_eq!(scan_bytes(&target, &ack0), Some(ack0.len()));
        }
        a => panic!("unexpected sender action: {:?}", a),
    }
    s.on_event(SenderEvent::ScanMatched);

    // OK(checksum(size bytes)): both roles compute the same digits.
    let ok_size = match r.action() {
        ReceiverAction::EmitToken { data } => data,
        a => panic!("unexpected receiver action: {:?}", a),
    };
    r.on_event(ReceiverEvent::EmitDone);
    match s.action() {
        SenderAction::ScanBounded { target, wide } => {
            assert!(!wide);
            assert_eq!(target, ok_size);
        }
        a => panic!("unexpected sender action: {:?}", a),
    }
    s.on_event(SenderEvent::ScanMatched);

    // Payload chunks, each acknowledged, then the final image OK.
    let mut image_acks = 0usize;
    loop {
        match s.action() {
            SenderAction::Write { data } => {
                s.on_event(SenderEvent::WriteDone);
                match r.action() {
                    ReceiverAction::ReadRegion { len } => assert_eq!(len, data.len()),
                    a => panic!("unexpected receiver action: {:?}", a),
                }
                r.on_event(ReceiverEvent::RegionRead { data });
                let ack = match r.action() {
                    ReceiverAction::EmitToken { data } => data,
                    a => panic!("unexpected receiver action: {:?}", a),
                };
                r.on_event(ReceiverEvent::EmitDone);
                match s.action() {
                    SenderAction::ScanBounded { target, wide } => {
                        assert!(!wide);
                        assert_eq!(target, ack);
                    }
                    a => panic!("unexpected sender action: {:?}", a),
                }
                s.on_event(SenderEvent::ScanMatched);
                image_acks += 1;
            }
            SenderAction::ScanBounded { target, wide } => {
                // The final confirmation gets the wider budget.
                assert!(wide);
                let ok_image = match r.action() {
                    ReceiverAction::EmitToken { data } => data,
                    a => panic!("unexpected receiver action: {:?}", a),
                };
                r.on_event(ReceiverEvent::EmitDone);
                assert_eq!(target, ok_image);
                s.on_event(SenderEvent::ScanMatched);
                break;
            }
            a => panic!("unexpected sender action: {:?}", a),
        }
    }

    assert!(matches!(s.action(), SenderAction::Finish));
    assert!(matches!(r.action(), ReceiverAction::YieldImage));
    (r.take_image(), image_acks)
}

#[test]
fn transfer_of_one_full_chunk() {
    // A 256-byte image: exactly one image chunk, one ACK for it, and a
    // handoff buffer of 256 bytes equal to the source.
    let image: Vec<u8> = (0..=255u8).collect();
    let (buffer, image_acks) = run_transfer(image.clone());
    assert_eq!(image_acks, 1);
    assert_eq!(buffer.len(), 256);
    assert_eq!(buffer, image);
}

#[test]
fn transfer_of_empty_image() {
    // A 0-byte image: zero image chunks; the sender proceeds directly from
    // the size-ok wait to the image-ok wait, scanning for OK over the
    // checksum of no bytes at all.
    let (buffer, image_acks) = run_transfer(Vec::new());
    assert_eq!(image_acks, 0);
    assert_eq!(buffer.len(), 0);
}

#[test]
fn transfer_of_odd_length_image() {
    let image: Vec<u8> = (0..700u32).map(|i| (i % 253) as u8).collect();
    let (buffer, image_acks) = run_transfer(image.clone());
    assert_eq!(image_acks, 3);
    assert_eq!(buffer, image);
}

#[test]
fn empty_image_ok_target_uses_empty_checksum() {
    let mut s = Sender::new(Vec::new());
    s.on_event(SenderEvent::ScanMatched); // RDY seen
    s.on_event(SenderEvent::WriteDone); // size written
    s.on_event(SenderEvent::ScanMatched); // ACK(0) seen
    s.on_event(SenderEvent::ScanMatched); // size OK seen
    // With zero chunks the sender is already waiting for the image OK.
    match s.action() {
        SenderAction::ScanBounded { target, wide } => {
            assert!(wide);
            let mut expected = b"OK(".to_vec();
            expected.extend_from_slice(checksum(&[]).to_string().as_bytes());
            expected.extend_from_slice(b")\n");
            assert_eq!(target, expected);
        }
        a => panic!("unexpected sender action: {:?}", a),
    }
}

#[test]
fn delayed_ack_causes_identical_retransmission() {
    // A 257-byte image: two chunks of 256 and 1 bytes. The acknowledgement
    // of chunk 1 is delayed past the bounded timeout; the sender rewrites
    // the identical chunk and succeeds once the acknowledgement arrives.
    let image: Vec<u8> = (0..257u32).map(|i| (i % 101) as u8).collect();
    let mut s = Sender::new(image.clone());
    s.on_event(SenderEvent::ScanMatched); // RDY seen
    s.on_event(SenderEvent::WriteDone); // size written
    s.on_event(SenderEvent::ScanMatched); // ACK(0) for the size
    s.on_event(SenderEvent::ScanMatched); // size OK

    // Chunk 0 goes through at once.
    let chunk0 = match s.action() {
        SenderAction::Write { data } => data,
        a => panic!("unexpected sender action: {:?}", a),
    };
    assert_eq!(chunk0.len(), 256);
    s.on_event(SenderEvent::WriteDone);
    s.on_event(SenderEvent::ScanMatched); // ACK(0) for chunk 0

    // Chunk 1: the first wait for ACK(1) times out.
    let chunk1 = match s.action() {
        SenderAction::Write { data } => data,
        a => panic!("unexpected sender action: {:?}", a),
    };
    assert_eq!(chunk1.len(), 1);
    s.on_event(SenderEvent::WriteDone);
    match s.action() {
        SenderAction::ScanBounded { target, wide } => {
            assert!(!wide);
            assert_eq!(target, b"ACK(1)\n".to_vec());
        }
        a => panic!("unexpected sender action: {:?}", a),
    }
    s.on_event(SenderEvent::ScanTimedOut);

    // The retransmission is byte-identical.
    let chunk1_again = match s.action() {
        SenderAction::Write { data } => data,
        a => panic!("unexpected sender action: {:?}", a),
    };
    assert_eq!(chunk1_again, chunk1);
    s.on_event(SenderEvent::WriteDone);
    s.on_event(SenderEvent::ScanMatched); // ACK(1) finally seen
    s.on_event(SenderEvent::ScanMatched); // image OK
    assert_eq!(s.state, SenderState::Done);
}

#[test]
fn unacked_chunk_is_retransmitted_indefinitely() {
    // If ACK(0) never appears the sender never advances past chunk 0: every
    // timed-out wait is answered by rewriting the identical chunk.
    let image: Vec<u8> = vec![9u8; 300];
    let mut s = Sender::new(image.clone());
    s.on_event(SenderEvent::ScanMatched);
    s.on_event(SenderEvent::WriteDone);
    s.on_event(SenderEvent::ScanMatched);
    s.on_event(SenderEvent::ScanMatched);

    let first = match s.action() {
        SenderAction::Write { data } => data,
        a => panic!("unexpected sender action: {:?}", a),
    };
    s.on_event(SenderEvent::WriteDone);
    for _ in 0..5 {
        s.on_event(SenderEvent::ScanTimedOut);
        match s.action() {
            SenderAction::Write { data } => assert_eq!(data, first),
            a => panic!("unexpected sender action: {:?}", a),
        }
        s.on_event(SenderEvent::WriteDone);
        match s.action() {
            SenderAction::ScanBounded { target, wide } => {
                assert!(!wide);
                assert_eq!(target, b"ACK(0)\n".to_vec());
            }
            a => panic!("unexpected sender action: {:?}", a),
        }
    }
}

#[test]
fn corrupted_chunk_surfaces_only_as_a_timeout() {
    // A single bit flip in a transmitted chunk makes the receiver's image
    // checksum diverge from the sender's; the sender's final scan never
    // finds its OK token and the failure is a plain timeout — there is no
    // distinguishable checksum-mismatch error.
    let image: Vec<u8> = (0..300u32).map(|i| (i % 97) as u8).collect();
    let mut s = Sender::new(image.clone());
    let mut r = Receiver::new();

    let rdy = match r.action() {
        ReceiverAction::EmitToken { data } => data,
        a => panic!("unexpected receiver action: {:?}", a),
    };
    r.on_event(ReceiverEvent::EmitDone);
    match s.action() {
        SenderAction::ScanUnbounded { target } => {
            assert_eq!(scan_bytes(&target, &rdy), Some(rdy.len()));
        }
        a => panic!("unexpected sender action: {:?}", a),
    }
    s.on_event(SenderEvent::ScanMatched);

    let size_bytes = match s.action() {
        SenderAction::Write { data } => data,
        a => panic!("unexpected sender action: {:?}", a),
    };
    s.on_event(SenderEvent::WriteDone);
    r.on_event(ReceiverEvent::RegionRead { data: size_bytes });
    r.on_event(ReceiverEvent::EmitDone); // ACK(0)
    s.on_event(SenderEvent::ScanMatched);
    r.on_event(ReceiverEvent::EmitDone); // size OK
    s.on_event(SenderEvent::ScanMatched);

    // Chunk 0 suffers a single bit flip in transit.
    let mut chunk0 = match s.action() {
        SenderAction::Write { data } => data,
        a => panic!("unexpected sender action: {:?}", a),
    };
    s.on_event(SenderEvent::WriteDone);
    chunk0[17] ^= 0x08;
    r.on_event(ReceiverEvent::RegionRead { data: chunk0 });
    r.on_event(ReceiverEvent::EmitDone); // ACK(0), index-based, still matches
    s.on_event(SenderEvent::ScanMatched);

    // Chunk 1 arrives intact.
    let chunk1 = match s.action() {
        SenderAction::Write { data } => data,
        a => panic!("unexpected sender action: {:?}", a),
    };
    s.on_event(SenderEvent::WriteDone);
    r.on_event(ReceiverEvent::RegionRead { data: chunk1 });
    r.on_event(ReceiverEvent::EmitDone); // ACK(1)
    s.on_event(SenderEvent::ScanMatched);

    // The checksums have diverged, so the receiver's OK token can never
    // match the sender's scan target.
    assert_ne!(checksum(&r.image), checksum(&image));
    let ok_image = match r.action() {
        ReceiverAction::EmitToken { data } => data,
        a => panic!("unexpected receiver action: {:?}", a),
    };
    match s.action() {
        SenderAction::ScanBounded { target, wide } => {
            assert!(wide);
            assert_ne!(target, ok_image);
            assert_eq!(scan_bytes(&target, &ok_image), None);
        }
        a => panic!("unexpected sender action: {:?}", a),
    }
    s.on_event(SenderEvent::ScanTimedOut);
    match s.action() {
        SenderAction::Abort { error } => assert_eq!(error, TransferError::Timeout),
        a => panic!("unexpected sender action: {:?}", a),
    }
}

#[test]
fn sender_aborts_on_size_write_failure() {
    let mut s = Sender::new(vec![1u8, 2, 3]);
    s.on_event(SenderEvent::ScanMatched);
    s.on_event(SenderEvent::WriteFailed);
    match s.action() {
        SenderAction::Abort { error } => assert_eq!(error, TransferError::Transport),
        a => panic!("unexpected sender action: {:?}", a),
    }
}

#[test]
fn sender_aborts_on_size_ack_timeout() {
    // Timeout waiting for the size acknowledgement is fatal: there is no
    // retry path for it.
    let mut s = Sender::new(vec![1u8, 2, 3]);
    s.on_event(SenderEvent::ScanMatched);
    s.on_event(SenderEvent::WriteDone);
    s.on_event(SenderEvent::ScanTimedOut);
    match s.action() {
        SenderAction::Abort { error } => assert_eq!(error, TransferError::Timeout),
        a => panic!("unexpected sender action: {:?}", a),
    }
}

#[test]
fn receiver_halts_when_request_cannot_be_sent() {
    let mut r = Receiver::new();
    r.on_event(ReceiverEvent::EmitFailed);
    match r.action() {
        ReceiverAction::Halt { reason } => assert_eq!(reason, ReceiverFailure::Transport),
        a => panic!("unexpected receiver action: {:?}", a),
    }
}

#[test]
fn receiver_retries_failed_reads_indefinitely() {
    let mut r = Receiver::new();
    r.on_event(ReceiverEvent::EmitDone);
    for _ in 0..4 {
        match r.action() {
            ReceiverAction::ReadRegion { len } => assert_eq!(len, 8),
            a => panic!("unexpected receiver action: {:?}", a),
        }
        r.on_event(ReceiverEvent::ReadFailed);
    }
    match r.action() {
        ReceiverAction::ReadRegion { len } => assert_eq!(len, 8),
        a => panic!("unexpected receiver action: {:?}", a),
    }
}

#[test]
fn receiver_ignores_failed_token_emissions() {
    // Failure to emit an ACK or OK never gates the receiver's progress.
    let mut r = Receiver::new();
    r.on_event(ReceiverEvent::EmitDone);
    r.on_event(ReceiverEvent::RegionRead { data: vec![0, 0, 0, 0, 0, 0, 0, 2] });
    r.on_event(ReceiverEvent::EmitFailed); // ACK(0) lost
    r.on_event(ReceiverEvent::EmitFailed); // size OK lost
    match r.action() {
        ReceiverAction::ReadRegion { len } => assert_eq!(len, 2),
        a => panic!("unexpected receiver action: {:?}", a),
    }
}
