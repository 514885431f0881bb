# bdja — BDJ Studio audio provenance analyzer

The analyzer tells whether a file that declares a lossless format (WAV,
FLAC, AIFF, ALAC) really carries lossless audio, or is a transcode of a lossy
source. Each file gets fourteen evidences (E01–E14), false-positive guards,
and one of six verdicts: `LosslessVerified`, `LikelyLossless`,
`Inconclusive`, `Suspicious`, `ProbableTranscode`, `DeclaredLossy`.

## Layout

- `src/` — the verified library (Verus):
  - `types`, `verdict`: the vocabulary and the verdict engine, with its laws
    (conviction gate, guard veto, monotonicity in the score, ...);
  - `evidence`: the evidence catalogue and the guards, from integer measures
    and the kind of spectral limit (brickwall cut, full spectrum, natural roll-off);
  - `forensic`: magic bytes, extension lies, DJ metadata and residual
    MPEG/LAME tags in a file's bytes;
  - `decode`: decoding limits, declared facts, error classification, window plan;
  - `signal`: the sample pools and the shape of the decoded signal (generic
    over the sample type);
  - `ipc`: length-prefixed framing and the worker/supervisor decisions;
  - `store`: stored codes, query shapes, migration plan, fingerprints, CSV;
  - `scan`, `volumes`: audio extensions, thread counts, cache keys,
    failure reports, drive listing;
  - `corpus`, `calibration`: corpus validation tallies and the threshold sweep;
  - `ffi`: the checks and messages of the interface entry points;
  - `text`, `wrappers`: text helpers (trimming, decimal text) and the trusted calls into std,
    `blake3` and `num_cpus`.
- `tests/` — tests of the library.
- `app/` — the command line and everything that touches files, threads,
  SQLite, Symphonia decoding and floating-point signal analysis.
