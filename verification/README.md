# rftps

An FTP/FTPS server that can replicate uploaded files to a remote store in
the background, written in Verus.

- `src/` is the verified library. Every decision the server makes is a
  function with a contract there: validating the command line, choosing the
  password, passive ports and certificates, the login check, turning the FTP
  server's notifications into events and log lines, the bounded job queue,
  retry scheduling with doubling delays, worker outcomes, the event bus's
  subscriber list, the FTP and S3 backends' remote paths, folders, trust and
  error classification, the relay client's key handling, signatures, replies
  (the flat FTP and the versioned FTPS or S3 backend settings) and credential
  steps, and the settings that `relay init` writes. The
  cross-function properties are stated as `law_*` proof functions.
- `app/` is the program around it: the command line parser, the settings
  file, the libunftp server, the FTP connection, the relay's HTTP requests
  and the tasks that run the background jobs.
- `tests/` exercises the library on concrete values.
