# Zhunji

The core of a dictation program: hold a key and speak, let go, and what was said stands at the
cursor. Escape takes it back.

`src/` is the library. It holds the rules of the program, each with a contract that Verus proves:

- `coordinator_state`, `coordinator/`: the life of a session, from the press of the key to the text
  at the cursor; cancelling, retries, the capsule, the monitors of the keys.
- `asr/`: the wire format and the protocol of the Doubao channel, putting recognised segments
  together, and the request of the Grok channel.
- `insertion`, `side_aware_combo`, `permissions`, `recorder`, `audio_mute`, `wav`: text at the
  cursor, combinations of keys that tell left from right, the microphone.
- `persistence/`, `providers`, `dictionary`: what is kept, and for how long.
- `ffi`, `event_bus`, `net`, `logging`, `global_hotkey_runtime`: what the host is told.
- `text`, `json`, `ids`, `types`: strings, JSON, identifiers, and the records that all share.

The library performs nothing itself. A function of the coordinator changes its state and lists the
effects that it asks for; the caller performs them and reports what came of them. Laws about more
than one function are public proof functions whose names begin with `law_`.

`app/` is the program around the library: a C interface for the host, files, sockets, audio, the
keyboard. The parts that talk to one system only are compiled on that system.

`tests/` runs the library on concrete values.
