# PartBooter

PartBooter prepares supported internal boot payloads (profiled Linux ISOs and
WinPE WIM images) on Windows UEFI/GPT machines without removable media, using
an additive boot-entry model with a journal for verify, rollback and repair.

## Layout

- `src/` is the verified library (Verus):
  - `model`, `render`, `json`, `plan_file`, `record_file`, `round_trip`: the
    domain records, their JSON rendering, the line-oriented plan and journal
    files, and the proofs that reading a written file gives back its value;
  - `linux_iso`, `winpe`, `paths`: payload classification;
  - `probe`, `windows`: probe output parsing and the Windows host rules;
  - `service`: host and payload checks, plan construction, step records,
    journals, verification reports, rollback and repair, with their laws;
  - `apply`: applying a plan as a state machine over host actions;
  - `checkpoint`, `registration`: the ESP backup and the boot entry
    registration on a Windows host, as state machines over host commands;
  - `journal`: the journal store layout, backup manifests, latest operation;
  - `cli`: the command lines of the operator tool and the helper;
  - `text`, `lines`, `error`: text helpers and the error type.
- `tests/` runs the library on concrete values.
- `app/` is the program: argument handling, printing, file-system work and
  the Windows tools (PowerShell, robocopy, mountvol, bcdedit).
